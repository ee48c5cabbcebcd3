//! Data structures: enumerations and pattern matching, optional values,
//! vectors, slices, strings, tuples and hash maps.

use crate::text::decimal;
use crate::text::decimal_nat;
use crate::text::push_decimal;
use crate::text::push_signed_decimal;
use vstd::hash_map::StringHashMap;
use vstd::prelude::*;
use vstd::string::StringExecFns;

verus! {

/// How a point in space is written, given the numerals of its coordinates.
pub open spec fn point_notation(x: Seq<char>, y: Seq<char>, z: Seq<char>) -> Seq<char> {
    "("@ + x + ", "@ + y + ", "@ + z + ")"@
}

/// Writes a point in space from the numerals of its three coordinates.
pub fn point_text(x: &str, y: &str, z: &str) -> (text: String)
    ensures
        text@ == point_notation(x@, y@, z@),
{
    let mut text = String::from_str("(");
    text.append(x);
    text.append(", ");
    text.append(y);
    text.append(", ");
    text.append(z);
    text.append(")");
    text
}

/// How a line is written, given how its two end points are written.
pub open spec fn line_notation(start: Seq<char>, end: Seq<char>) -> Seq<char> {
    "["@ + start + ", "@ + end + "]"@
}

/// Writes a line from the texts of its two end points.
pub fn line_text(start: &str, end: &str) -> (text: String)
    ensures
        text@ == line_notation(start@, end@),
{
    let mut text = String::from_str("[");
    text.append(start);
    text.append(", ");
    text.append(end);
    text.append("]");
    text
}

/// A colour, either one of three named ones or given by its components.
#[derive(Debug, Clone, Copy)]
pub enum Color {
    Red,
    Blue,
    Green,
    RGB(u8, u8, u8),
    CMYK { cyan: u8, magenta: u8, yellow: u8, black: u8 },
}

impl Color {
    /// Whether the colour is black: no red, green or blue at all, or full
    /// black ink whatever the other inks are.
    pub open spec fn is_black(self) -> bool {
        match self {
            Color::RGB(r, g, b) => r == 0 && g == 0 && b == 0,
            Color::CMYK { black, .. } => black == 255,
            _ => false,
        }
    }

    /// The full description of a colour: its name where it has one, else
    /// every component.
    pub open spec fn description(self) -> Seq<char> {
        match self {
            Color::Red => "red"@,
            Color::Blue => "blue"@,
            Color::Green => "green"@,
            Color::RGB(r, g, b) => if self.is_black() {
                "black"@
            } else {
                "RGB("@ + decimal_nat(r as nat) + ", "@ + decimal_nat(g as nat) + ", "@
                    + decimal_nat(b as nat) + ")"@
            },
            Color::CMYK { cyan, magenta, yellow, black } => if self.is_black() {
                "black"@
            } else {
                "CMYK[cyan: "@ + decimal_nat(cyan as nat) + ", magenta: "@ + decimal_nat(
                    magenta as nat,
                ) + ", yellow: "@ + decimal_nat(yellow as nat) + ", black: "@ + decimal_nat(
                    black as nat,
                ) + "]"@
            },
        }
    }

    /// The short description of a colour: as the full one, but of an ink
    /// mixture only the cyan and the black component.
    pub open spec fn summary(self) -> Seq<char> {
        match self {
            Color::CMYK { cyan, black, .. } => if self.is_black() {
                "black"@
            } else {
                "CMYK[cyan: "@ + decimal_nat(cyan as nat) + ", black: "@ + decimal_nat(
                    black as nat,
                ) + "]"@
            },
            _ => self.description(),
        }
    }

    /// Describes the colour in full.
    pub fn describe(&self) -> (text: String)
        ensures
            text@ == self.description(),
    {
        match *self {
            Color::Red => String::from_str("red"),
            Color::Blue => String::from_str("blue"),
            Color::Green => String::from_str("green"),
            Color::RGB(0, 0, 0) | Color::CMYK { cyan: _, magenta: _, yellow: _, black: 255 } => {
                String::from_str("black")
            },
            Color::RGB(r, g, b) => {
                let mut text = String::from_str("RGB(");
                push_decimal(&mut text, r as u64);
                text.append(", ");
                push_decimal(&mut text, g as u64);
                text.append(", ");
                push_decimal(&mut text, b as u64);
                text.append(")");
                text
            },
            Color::CMYK { cyan: c, magenta: m, yellow: y, black: k } => {
                let mut text = String::from_str("CMYK[cyan: ");
                push_decimal(&mut text, c as u64);
                text.append(", magenta: ");
                push_decimal(&mut text, m as u64);
                text.append(", yellow: ");
                push_decimal(&mut text, y as u64);
                text.append(", black: ");
                push_decimal(&mut text, k as u64);
                text.append("]");
                text
            },
        }
    }

    /// Describes the colour in short.
    pub fn summarize(&self) -> (text: String)
        ensures
            text@ == self.summary(),
    {
        match *self {
            Color::Red => String::from_str("red"),
            Color::Blue => String::from_str("blue"),
            Color::Green => String::from_str("green"),
            Color::RGB(0, 0, 0) | Color::CMYK { cyan: _, magenta: _, yellow: _, black: 255 } => {
                String::from_str("black")
            },
            Color::RGB(r, g, b) => {
                let mut text = String::from_str("RGB(");
                push_decimal(&mut text, r as u64);
                text.append(", ");
                push_decimal(&mut text, g as u64);
                text.append(", ");
                push_decimal(&mut text, b as u64);
                text.append(")");
                text
            },
            Color::CMYK { black: k, cyan: c, .. } => {
                let mut text = String::from_str("CMYK[cyan: ");
                push_decimal(&mut text, c as u64);
                text.append(", black: ");
                push_decimal(&mut text, k as u64);
                text.append("]");
                text
            },
        }
    }
}

/// One step of a countdown: nothing below zero, else the number before.
pub fn count_down_to_none(n: u8) -> (next: Option<u8>)
    ensures
        next == if n == 0 {
            None
        } else {
            Some((n - 1) as u8)
        },
{
    if n == 0 {
        None
    } else {
        Some(n - 1)
    }
}

/// Counts down from `start` to zero and returns every number on the way,
/// `start` first and zero last.
pub fn count_down(start: u8) -> (steps: Vec<u8>)
    ensures
        steps@.len() == start + 1,
        forall|k: int| 0 <= k <= start ==> steps@[k] == start - k,
{
    let mut steps: Vec<u8> = Vec::new();
    let mut x: Option<u8> = Some(start);
    while x.is_some()
        invariant
            match x {
                Some(i) => i <= start && steps@.len() == start - i,
                None => steps@.len() == start + 1,
            },
            forall|k: int| 0 <= k < steps@.len() ==> steps@[k] == start - k,
        decreases
            match x {
                Some(i) => i + 1,
                None => 0,
            },
    {
        let i = x.unwrap();
        steps.push(i);
        x = count_down_to_none(i);
    }
    steps
}

/// What looking up position `idx` of a vector gives, as a sentence.
pub open spec fn element_report(idx: int, s: Seq<i32>) -> Seq<char> {
    if 0 <= idx < s.len() {
        "The vector's "@ + decimal(idx) + "-th element is "@ + decimal(s[idx] as int)
    } else {
        "Error: out-of-bounds"@
    }
}

/// Looks up position `idx` of `vec` without ever failing, and reports either
/// the element found there or that the position lies outside the vector.
pub fn get_vector_elem(idx: usize, vec: &Vec<i32>) -> (report: String)
    ensures
        report@ == element_report(idx as int, vec@),
{
    if idx < vec.len() {
        let x = vec[idx];
        let mut report = String::from_str("The vector's ");
        push_decimal(&mut report, idx as u64);
        report.append("-th element is ");
        push_signed_decimal(&mut report, x as i64);
        report
    } else {
        String::from_str("Error: out-of-bounds")
    }
}

/// Empties `v` from the back and returns its elements in the order in which
/// they left: last to first.
pub fn pop_all(v: &mut Vec<i32>) -> (popped: Vec<i32>)
    ensures
        final(v)@.len() == 0,
        popped@ == old(v)@.reverse(),
{
    let mut popped: Vec<i32> = Vec::new();
    while v.len() > 0
        invariant
            v@.len() + popped@.len() == old(v)@.len(),
            v@ == old(v)@.take(v@.len() as int),
            forall|k: int|
                0 <= k < popped@.len() ==> popped@[k] == old(v)@[old(v)@.len() - 1 - k],
        decreases v@.len(),
    {
        let x = v.pop().unwrap();
        popped.push(x);
    }
    popped
}

/// The positions on the main diagonal of a table with `rows` rows of `cols`
/// entries each, top to bottom: every position of the table is visited, row
/// by row, and those whose row and column agree are kept.
pub fn diagonal(rows: usize, cols: usize) -> (cells: Vec<(usize, usize)>)
    ensures
        cells@.len() == if rows <= cols {
            rows
        } else {
            cols
        },
        forall|k: int| 0 <= k < cells@.len() ==> cells@[k] == (k as usize, k as usize),
{
    let mut cells: Vec<(usize, usize)> = Vec::new();
    let mut i: usize = 0;
    while i < rows
        invariant
            i <= rows,
            cells@.len() == if i <= cols {
                i
            } else {
                cols
            },
            forall|k: int| 0 <= k < cells@.len() ==> cells@[k] == (k as usize, k as usize),
        decreases rows - i,
    {
        let mut j: usize = 0;
        while j < cols
            invariant
                i < rows,
                j <= cols,
                cells@.len() == if i < j {
                    i + 1
                } else if i <= cols {
                    i as int
                } else {
                    cols as int
                },
                forall|k: int| 0 <= k < cells@.len() ==> cells@[k] == (k as usize, k as usize),
            decreases cols - j,
        {
            if i == j {
                cells.push((i, j));
            }
            j += 1;
        }
        i += 1;
    }
    cells
}

/// The value that `mark_first` writes.
pub const MARK: i32 = 666;

/// Overwrites the first element of a slice with `MARK` and leaves the rest.
pub fn mark_first(slice: &mut [i32])
    requires
        old(slice)@.len() > 0,
    ensures
        final(slice)@ == old(slice)@.update(0, MARK),
{
    slice[0] = MARK;
}

/// The characters of a string, last to first.
pub fn reversed(s: &str) -> (r: String)
    ensures
        r@ == s@.reverse(),
{
    let mut chars: Vec<char> = Vec::new();
    for c in it: s.chars()
        invariant
            it.seq() == s@,
            chars@ == it.seq().take(it.index() as int),
    {
        chars.push(c);
    }
    let mut r = String::new();
    let mut left: usize = chars.len();
    while left > 0
        invariant
            chars@ == s@,
            left <= chars@.len(),
            r@.len() == chars@.len() - left,
            forall|k: int| 0 <= k < r@.len() ==> r@[k] == s@[s@.len() - 1 - k],
        decreases left,
    {
        left -= 1;
        r.push(chars[left]);
    }
    r
}

/// The first character of a string, if it has one.
pub fn first_char(s: &str) -> (first: Option<char>)
    ensures
        first == if s@.len() > 0 {
            Some(s@[0])
        } else {
            None
        },
{
    let mut chars = s.chars();
    chars.next()
}

/// The characters with codes `first` to `last`, each followed by a comma and
/// a space.
pub open spec fn letter_list(first: int, last: int) -> Seq<char>
    decreases last - first + 1,
{
    if first > last {
        Seq::<char>::empty()
    } else {
        seq![first as char] + ", "@ + letter_list(first + 1, last)
    }
}

/// Lists the characters with codes `first` to `last` in order, each followed
/// by a comma and a space.
pub fn letters(first: u8, last: u8) -> (list: String)
    requires
        last < u8::MAX,
    ensures
        list@ == letter_list(first as int, last as int),
{
    let mut list = String::new();
    let mut a: u8 = first;
    while a <= last
        invariant
            first <= a || first > last,
            last < u8::MAX,
            list@ + letter_list(a as int, last as int) == letter_list(first as int, last as int),
        decreases last - a + 1,
    {
        list.push(a as char);
        list.append(", ");
        a += 1;
    }
    list
}

/// The sum and the product of two integers.
pub fn sum_prod(x: i32, y: i32) -> (sp: (i32, i32))
    requires
        i32::MIN <= x + y <= i32::MAX,
        i32::MIN <= x * y <= i32::MAX,
    ensures
        sp.0 == x + y,
        sp.1 == x * y,
{
    (x + y, x * y)
}

/// The polygons that `polygons` knows, each with its number of sides.
pub open spec fn polygon_sides() -> Map<Seq<char>, i32> {
    Map::<Seq<char>, i32>::empty().insert("triangle"@, 3i32).insert("rectangle"@, 4i32).insert(
        "pentagon"@,
        5i32,
    )
}

/// A table from the names of three polygons to their numbers of sides.
pub fn polygons() -> (table: StringHashMap<i32>)
    ensures
        table@ == polygon_sides(),
{
    let mut table = StringHashMap::<i32>::new();
    table.insert(String::from_str("triangle"), 3);
    table.insert(String::from_str("rectangle"), 4);
    table.insert(String::from_str("pentagon"), 5);
    table
}

/// Enters `default` under `key` unless the table has an entry for `key`
/// already, and returns the value that stands under `key` afterwards.
pub fn or_insert(table: &mut StringHashMap<i32>, key: &str, default: i32) -> (value: i32)
    ensures
        final(table)@ == if old(table)@.contains_key(key@) {
            old(table)@
        } else {
            old(table)@.insert(key@, default)
        },
        value == final(table)@[key@],
{
    match table.get(key) {
        Some(v) => *v,
        None => {
            table.insert(String::from_str(key), default);
            default
        },
    }
}

/// The word for a number of things.
pub open spec fn quantity_word(x: int) -> Seq<char> {
    if x == 0 {
        "no"@
    } else if x == 1 || x == 2 {
        "one or two"@
    } else if 3 <= x <= 6 {
        "a few"@
    } else if x == 12 {
        "a dozen"@
    } else if x % 2 == 0 {
        "an even number of"@
    } else {
        "several"@
    }
}

/// Says in words how many things `x` things are.
pub fn how_many(x: u32) -> (word: &'static str)
    ensures
        word@ == quantity_word(x as int),
{
    match x {
        0 => "no",
        1 | 2 => "one or two",
        3..=6 => "a few",
        12 => "a dozen",
        _ if (x % 2 == 0) => "an even number of",
        _ => "several",
    }
}

} // verus!
