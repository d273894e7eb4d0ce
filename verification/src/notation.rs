//! Writing a complex number as text.
//!
//! [`Complex::notation`] decides which of eight shapes a number is written in
//! and which scalars the shape shows; [`Notation::text`] writes the shape down,
//! each scalar as its own `Display` gives it.
use core::fmt::Display;
use core::ops::Neg;
use vstd::prelude::*;
use vstd::std_specs::ops::NegSpec;
use vstd::string::to_string_from_display_ensures;
use vstd::string::StringExecFns;
use crate::compare::comparisons_obey;
use crate::compare::equals_small;
use crate::compare::is_negative;
use crate::complex::Complex;

verus! {

/// The shape in which a complex number is written, with the scalars to show.
#[derive(Debug, PartialEq)]
pub enum Notation<T> {
    /// `{0}`: a number without imaginary part.
    Real(T),
    /// `i`: the imaginary unit.
    Unit,
    /// `-i`: the negated imaginary unit.
    MinusUnit,
    /// `{0}*i`: a number without real part.
    Imaginary(T),
    /// `{0} - i`.
    LessUnit(T),
    /// `{0} - {1}*i`, where `{1}` is the negated imaginary component.
    Less(T, T),
    /// `{0} + i`.
    PlusUnit(T),
    /// `{0} + {1}*i`.
    Plus(T, T),
}

/// Whether `s` is a text that `Display` gives for `x`.
pub open spec fn shows<T: Display>(x: T, s: Seq<char>) -> bool {
    exists|t: String| #[trigger] to_string_from_display_ensures::<T>(&x, t) && t@ == s
}

impl<T: Copy + PartialOrd + Neg<Output = T> + From<i8>> Complex<T> {
    /// Whether the number is written with a negated imaginary component.
    pub open spec fn shows_negated(self) -> bool {
        &&& !equals_small(self.i, 0i8)
        &&& !equals_small(self.r, 0i8)
        &&& is_negative(self.i)
        &&& !equals_small(self.i, -1i8)
    }

    /// Whether the shape can be decided: the scalar's comparisons and its
    /// conversion from small integers obey their specifications, and the
    /// imaginary component can be negated where its negation is shown.
    pub open spec fn notation_req(self) -> bool {
        &&& comparisons_obey::<T>()
        &&& self.shows_negated() ==> self.i.neg_req()
    }

    /// The shape in which the number is written.
    ///
    /// A zero imaginary part is left out, and so is a zero real part beside a
    /// nonzero imaginary one. An imaginary part of one or minus one shows no
    /// coefficient. Beside a real part, the sign of the imaginary part becomes
    /// the operator between the two.
    pub open spec fn notation_spec(self) -> Notation<T> {
        if equals_small(self.i, 0i8) {
            Notation::Real(self.r)
        } else if equals_small(self.r, 0i8) {
            if equals_small(self.i, 1i8) {
                Notation::Unit
            } else if equals_small(self.i, -1i8) {
                Notation::MinusUnit
            } else {
                Notation::Imaginary(self.i)
            }
        } else if is_negative(self.i) {
            if equals_small(self.i, -1i8) {
                Notation::LessUnit(self.r)
            } else {
                Notation::Less(self.r, self.i.neg_spec())
            }
        } else {
            if equals_small(self.i, 1i8) {
                Notation::PlusUnit(self.r)
            } else {
                Notation::Plus(self.r, self.i)
            }
        }
    }

    /// Decides the shape in which the number is written.
    pub fn notation(self) -> (n: Notation<T>)
        requires
            self.notation_req(),
        ensures
            T::obeys_neg_spec() || !self.shows_negated() ==> n == self.notation_spec(),
    {
        let zero = T::from(0i8);
        let one = T::from(1i8);
        let minus_one = T::from(-1i8);
        if self.i == zero {
            Notation::Real(self.r)
        } else if self.r == zero {
            if self.i == one {
                Notation::Unit
            } else if self.i == minus_one {
                Notation::MinusUnit
            } else {
                Notation::Imaginary(self.i)
            }
        } else if self.i < zero {
            if self.i == minus_one {
                Notation::LessUnit(self.r)
            } else {
                Notation::Less(self.r, self.i.neg())
            }
        } else {
            if self.i == one {
                Notation::PlusUnit(self.r)
            } else {
                Notation::Plus(self.r, self.i)
            }
        }
    }
}

impl<T: Display> Notation<T> {
    /// Whether `out` is the shape written down, each scalar by a text that
    /// `Display` gives for it.
    pub open spec fn written_as(self, out: Seq<char>) -> bool {
        match self {
            Notation::Real(re) => shows(re, out),
            Notation::Unit => out == "i"@,
            Notation::MinusUnit => out == "-i"@,
            Notation::Imaginary(im) => exists|s: Seq<char>| #[trigger]
                shows(im, s) && out == s + "*i"@,
            Notation::LessUnit(re) => exists|s: Seq<char>| #[trigger]
                shows(re, s) && out == s + " - i"@,
            Notation::Less(re, im) => exists|s: Seq<char>, t: Seq<char>|
                #![trigger shows(re, s), shows(im, t)]
                shows(re, s) && shows(im, t) && out == s + " - "@ + t + "*i"@,
            Notation::PlusUnit(re) => exists|s: Seq<char>| #[trigger]
                shows(re, s) && out == s + " + i"@,
            Notation::Plus(re, im) => exists|s: Seq<char>, t: Seq<char>|
                #![trigger shows(re, s), shows(im, t)]
                shows(re, s) && shows(im, t) && out == s + " + "@ + t + "*i"@,
        }
    }

    /// Writes the shape down.
    pub fn text(&self) -> (out: String)
        ensures
            self.written_as(out@),
    {
        match self {
            Notation::Real(re) => {
                let s = re.to_string();
                assert(shows(*re, s@));
                s
            },
            Notation::Unit => String::from_str("i"),
            Notation::MinusUnit => String::from_str("-i"),
            Notation::Imaginary(im) => {
                let s = im.to_string();
                assert(shows(*im, s@));
                s.concat("*i")
            },
            Notation::LessUnit(re) => {
                let s = re.to_string();
                assert(shows(*re, s@));
                s.concat(" - i")
            },
            Notation::Less(re, im) => {
                let s = re.to_string();
                let t = im.to_string();
                assert(shows(*re, s@));
                assert(shows(*im, t@));
                s.concat(" - ").concat(t.as_str()).concat("*i")
            },
            Notation::PlusUnit(re) => {
                let s = re.to_string();
                assert(shows(*re, s@));
                s.concat(" + i")
            },
            Notation::Plus(re, im) => {
                let s = re.to_string();
                let t = im.to_string();
                assert(shows(*re, s@));
                assert(shows(*im, t@));
                s.concat(" + ").concat(t.as_str()).concat("*i")
            },
        }
    }
}

impl<T: Copy + PartialOrd + Neg<Output = T> + From<i8> + Display> Complex<T> {
    /// The number as text: `3`, `i`, `-i`, `4*i`, `3 - i`, `3 - 4*i`, `3 + i`
    /// or `3 + 4*i`.
    pub fn to_text(self) -> (out: String)
        requires
            self.notation_req(),
        ensures
            T::obeys_neg_spec() || !self.shows_negated() ==> self.notation_spec().written_as(out@),
    {
        self.notation().text()
    }
}

} // verus!
