//! Traits: shared behaviour with default methods, behaviour added to types
//! defined elsewhere, conversions, operator overloading, and static and
//! dynamic dispatch.

use crate::text::decimal;
use crate::text::push_signed_decimal;
use std::fmt::Display;
use std::ops::Add;
use std::ops::Mul;
use std::ops::Sub;
use vstd::prelude::*;
use vstd::std_specs::cmp::PartialEqSpec;
use vstd::std_specs::cmp::PartialEqSpecImpl;
use vstd::std_specs::convert::IntoSpec;
use vstd::std_specs::ops::AddSpec;
use vstd::std_specs::ops::AddSpecImpl;
use vstd::std_specs::ops::MulSpec;
use vstd::std_specs::ops::MulSpecImpl;
use vstd::std_specs::ops::SubSpec;
use vstd::std_specs::ops::SubSpecImpl;
use vstd::string::to_string_from_display_ensures;
use vstd::string::StringExecFns;

verus! {

/// An animal has a name and may say something.
pub trait Animal {
    /// The animal's name as a sequence of characters.
    spec fn spec_name(&self) -> Seq<char>;

    /// Makes an animal with the given name.
    fn new(name: &'static str) -> (animal: Self) where Self: Sized
        ensures
            animal.spec_name() == name@,
    ;

    /// Returns the animal's name.
    fn name(&self) -> (name: &'static str)
        ensures
            name@ == self.spec_name(),
    ;

    /// Returns what the animal says. Unless a type says otherwise, an animal
    /// cannot talk.
    fn talk(&self) -> (line: String)
        default_ensures
            line@ == self.spec_name() + " cannot talk"@,
    {
        let mut line = String::from_str(self.name());
        line.append(" cannot talk");
        line
    }
}

pub struct Human {
    pub name: &'static str,
}

pub struct Cat {
    pub name: &'static str,
}

impl Animal for Human {
    open spec fn spec_name(&self) -> Seq<char> {
        self.name@
    }

    fn new(name: &'static str) -> (animal: Human) {
        Human { name }
    }

    fn name(&self) -> (name: &'static str) {
        self.name
    }

    fn talk(&self) -> (line: String)
        ensures
            line@ == self.name@ + " says hello"@,
    {
        let mut line = String::from_str(self.name);
        line.append(" says hello");
        line
    }
}

impl Animal for Cat {
    open spec fn spec_name(&self) -> Seq<char> {
        self.name@
    }

    fn new(name: &'static str) -> (animal: Cat) {
        Cat { name }
    }

    fn name(&self) -> (name: &'static str) {
        self.name
    }

    fn talk(&self) -> (line: String)
        ensures
            line@ == self.name@ + " says meow"@,
    {
        let mut line = String::from_str(self.name);
        line.append(" says meow");
        line
    }
}

/// The sum of a sequence of integers.
pub open spec fn seq_sum(s: Seq<i32>) -> int
    decreases s.len(),
{
    if s.len() == 0 {
        0
    } else {
        seq_sum(s.drop_last()) + s.last()
    }
}

/// A collection whose elements can be added up.
pub trait Summable<T> {
    /// Whether adding the elements one after the other, first to last, never
    /// leaves the range of `T`.
    spec fn sums_in_range(&self) -> bool;

    /// The sum of all elements.
    spec fn total(&self) -> T;

    /// Adds up the elements, first to last.
    fn sum(&self) -> (total: T)
        requires
            self.sums_in_range(),
        ensures
            total == self.total(),
    ;
}

impl Summable<i32> for Vec<i32> {
    open spec fn sums_in_range(&self) -> bool {
        forall|k: int|
            0 <= k <= self@.len() ==> i32::MIN <= #[trigger] seq_sum(self@.take(k)) <= i32::MAX
    }

    open spec fn total(&self) -> i32 {
        seq_sum(self@) as i32
    }

    fn sum(&self) -> (total: i32) {
        let mut acc: i32 = 0;
        let mut i: usize = 0;
        while i < self.len()
            invariant
                i <= self@.len(),
                acc == seq_sum(self@.take(i as int)),
                self.sums_in_range(),
            decreases self@.len() - i,
        {
            proof {
                assert(self@.take(i + 1).drop_last() == self@.take(i as int));
                assert(i32::MIN <= seq_sum(self@.take(i + 1)) <= i32::MAX);
            }
            acc += self[i];
            i += 1;
        }
        proof {
            assert(self@.take(self@.len() as int) == self@);
        }
        acc
    }
}

/// The two kinds of shape that are told apart.
#[derive(Debug, Clone, Copy)]
pub enum ShapeKind {
    Circle,
    Rectangle,
}

impl ShapeKind {
    /// The name of this kind of shape.
    pub fn kind(&self) -> (name: &'static str)
        ensures
            name@ == match *self {
                ShapeKind::Circle => "circle"@,
                ShapeKind::Rectangle => "rectangle"@,
            },
    {
        match self {
            ShapeKind::Circle => "circle",
            ShapeKind::Rectangle => "rectangle",
        }
    }

    /// How many sides a shape of this kind has; a circle has none to count.
    pub fn number_of_sides(&self) -> (sides: Option<u8>)
        ensures
            sides == match *self {
                ShapeKind::Circle => None::<u8>,
                ShapeKind::Rectangle => Some(4u8),
            },
    {
        match self {
            ShapeKind::Circle => None,
            ShapeKind::Rectangle => Some(4),
        }
    }
}

/// Announces a creature as it comes into being.
pub fn entrance(name: &str) -> (line: String)
    ensures
        line@ == name@ + " enters the game"@,
{
    let mut line = String::from_str(name);
    line.append(" enters the game");
    line
}

/// Announces a creature as it is dropped.
pub fn farewell(name: &str) -> (line: String)
    ensures
        line@ == name@ + " is dead now"@,
{
    let mut line = String::from_str(name);
    line.append(" is dead now");
    line
}

/// Someone with a name of their own.
#[derive(Debug)]
pub struct Person {
    pub name: String,
}

impl Person {
    /// Makes a person from anything that converts into a `String`: the name
    /// is what the conversion gives.
    pub fn new<S: Into<String>>(name: S) -> (person: Person)
        ensures
            call_ensures(S::into, (name,), person.name),
            S::obeys_into_spec() ==> person.name == name.into_spec(),
    {
        Person::named(name.into())
    }

    /// Makes a person with the given name.
    pub fn named(name: String) -> (person: Person)
        ensures
            person.name == name,
    {
        Person { name }
    }
}

/// A complex number with real part `re` and imaginary part `im`.
#[derive(Debug, Copy, Clone)]
pub struct Complex<T> {
    pub re: T,
    pub im: T,
}

impl<T> Complex<T> {
    pub fn new(r: T, i: T) -> (c: Complex<T>)
        ensures
            c.re == r,
            c.im == i,
    {
        Complex::<T> { re: r, im: i }
    }
}

/// How a complex number is written, given the numerals of its two parts.
pub open spec fn notation(re: Seq<char>, im: Seq<char>) -> Seq<char> {
    re + " + "@ + im + "i"@
}

/// Writes a complex number from the numerals of its real and imaginary part.
pub fn notate(re: &str, im: &str) -> (text: String)
    ensures
        text@ == notation(re@, im@),
{
    let mut text = String::from_str(re);
    text.append(" + ");
    text.append(im);
    text.append("i");
    text
}

impl<T: Display> Complex<T> {
    /// Writes the number as its real part, a plus sign, and its imaginary
    /// part followed by `i`, each part as `Display` renders it.
    pub fn to_string(&self) -> (text: String)
        ensures
            exists|re: String, im: String|
                {
                    &&& #[trigger] to_string_from_display_ensures::<T>(&self.re, re)
                    &&& #[trigger] to_string_from_display_ensures::<T>(&self.im, im)
                    &&& text@ == notation(re@, im@)
                },
    {
        let re = self.re.to_string();
        let im = self.im.to_string();
        notate(re.as_str(), im.as_str())
    }
}

impl<T: Add<Output = T>> Add for Complex<T> {
    type Output = Complex<T>;

    fn add(self, rhs: Self) -> (sum: Self::Output) {
        Complex { re: self.re + rhs.re, im: self.im + rhs.im }
    }
}

impl<T: Add<Output = T>> AddSpecImpl for Complex<T> {
    open spec fn obeys_add_spec() -> bool {
        T::obeys_add_spec()
    }

    open spec fn add_req(self, rhs: Self) -> bool {
        self.re.add_req(rhs.re) && self.im.add_req(rhs.im)
    }

    open spec fn add_spec(self, rhs: Self) -> Self::Output {
        Complex { re: self.re.add_spec(rhs.re), im: self.im.add_spec(rhs.im) }
    }
}

impl<T: Sub<Output = T>> Sub for Complex<T> {
    type Output = Complex<T>;

    fn sub(self, rhs: Self) -> (difference: Self::Output) {
        Complex { re: self.re - rhs.re, im: self.im - rhs.im }
    }
}

impl<T: Sub<Output = T>> SubSpecImpl for Complex<T> {
    open spec fn obeys_sub_spec() -> bool {
        T::obeys_sub_spec()
    }

    open spec fn sub_req(self, rhs: Self) -> bool {
        self.re.sub_req(rhs.re) && self.im.sub_req(rhs.im)
    }

    open spec fn sub_spec(self, rhs: Self) -> Self::Output {
        Complex { re: self.re.sub_spec(rhs.re), im: self.im.sub_spec(rhs.im) }
    }
}

impl<T: Add<Output = T> + Sub<Output = T> + Mul<Output = T> + Copy> Mul for Complex<T> {
    type Output = Complex<T>;

    fn mul(self, rhs: Self) -> (product: Self::Output) {
        Complex {
            re: self.re * rhs.re - self.im * rhs.im,
            im: self.re * rhs.im + self.im * rhs.re,
        }
    }
}

impl<T: Add<Output = T> + Sub<Output = T> + Mul<Output = T> + Copy> MulSpecImpl for Complex<T> {
    open spec fn obeys_mul_spec() -> bool {
        T::obeys_mul_spec() && T::obeys_sub_spec() && T::obeys_add_spec()
    }

    /// The four products must be defined, and so must the difference and the
    /// sum that are formed from them.
    open spec fn mul_req(self, rhs: Self) -> bool {
        &&& T::obeys_mul_spec()
        &&& self.re.mul_req(rhs.re)
        &&& self.im.mul_req(rhs.im)
        &&& self.re.mul_req(rhs.im)
        &&& self.im.mul_req(rhs.re)
        &&& self.re.mul_spec(rhs.re).sub_req(self.im.mul_spec(rhs.im))
        &&& self.re.mul_spec(rhs.im).add_req(self.im.mul_spec(rhs.re))
    }

    open spec fn mul_spec(self, rhs: Self) -> Self::Output {
        Complex {
            re: self.re.mul_spec(rhs.re).sub_spec(self.im.mul_spec(rhs.im)),
            im: self.re.mul_spec(rhs.im).add_spec(self.im.mul_spec(rhs.re)),
        }
    }
}

impl<T: Add<Output = T> + Copy> Complex<T> {
    /// Adds `rhs` to this number in place.
    pub fn add_assign(&mut self, rhs: Self)
        requires
            old(self).re.add_req(rhs.re),
            old(self).im.add_req(rhs.im),
        ensures
            T::obeys_add_spec() ==> final(self).re == old(self).re.add_spec(rhs.re),
            T::obeys_add_spec() ==> final(self).im == old(self).im.add_spec(rhs.im),
    {
        self.re = self.re + rhs.re;
        self.im = self.im + rhs.im;
    }
}

impl<T: PartialEq> PartialEq for Complex<T> {
    fn eq(&self, other: &Self) -> (equal: bool) {
        self.re == other.re && self.im == other.im
    }
}

impl<T: PartialEq> PartialEqSpecImpl for Complex<T> {
    open spec fn obeys_eq_spec() -> bool {
        T::obeys_eq_spec()
    }

    open spec fn eq_spec(&self, other: &Self) -> bool {
        self.re.eq_spec(&other.re) && self.im.eq_spec(&other.im)
    }
}

impl<T: Eq> Eq for Complex<T> {

}

/// Something that can describe itself in one line of text.
pub trait Printable {
    /// The line that describes this value.
    spec fn formatted(&self) -> Seq<char>;

    fn format(&self) -> (text: String)
        ensures
            text@ == self.formatted(),
    ;
}

impl Printable for i32 {
    open spec fn formatted(&self) -> Seq<char> {
        "i32: "@ + decimal(*self as int)
    }

    fn format(&self) -> (text: String) {
        let mut text = String::from_str("i32: ");
        push_signed_decimal(&mut text, *self as i64);
        text
    }
}

impl Printable for String {
    open spec fn formatted(&self) -> Seq<char> {
        "String: "@ + self@
    }

    fn format(&self) -> (text: String) {
        let mut text = String::from_str("String: ");
        text.append(self.as_str());
        text
    }
}

/// Describes `x`; which `format` runs is settled when the call is compiled.
pub fn static_dispatch<T: Printable>(x: T) -> (text: String)
    ensures
        text@ == x.formatted(),
{
    x.format()
}

/// Describes `x`; which `format` runs is looked up when the call is made.
pub fn dynamic_dispatch(x: &dyn Printable) -> (text: String)
    ensures
        text@ == x.formatted(),
{
    x.format()
}

} // verus!
