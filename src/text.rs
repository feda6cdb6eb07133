//! Textual forms of query values: decimal integers, booleans and
//! comma-separated lists.

use vstd::prelude::*;
use vstd::string::*;

verus! {

/// The digit `d` (0..=9) as text.
pub open spec fn digit_text(d: int) -> Seq<char> {
    if d == 0 {
        "0"@
    } else if d == 1 {
        "1"@
    } else if d == 2 {
        "2"@
    } else if d == 3 {
        "3"@
    } else if d == 4 {
        "4"@
    } else if d == 5 {
        "5"@
    } else if d == 6 {
        "6"@
    } else if d == 7 {
        "7"@
    } else if d == 8 {
        "8"@
    } else {
        "9"@
    }
}

/// Decimal digits of a natural number, most significant first, without
/// leading zeros.
pub open spec fn natural_text(n: nat) -> Seq<char>
    decreases n,
{
    if n < 10 {
        digit_text(n as int)
    } else {
        natural_text(n / 10) + digit_text((n % 10) as int)
    }
}

/// Decimal form of an integer, with a leading `-` when negative.
pub open spec fn int_text(n: int) -> Seq<char> {
    if n < 0 {
        "-"@ + natural_text((-n) as nat)
    } else {
        natural_text(n as nat)
    }
}

/// `true` or `false`.
pub open spec fn bool_text(b: bool) -> Seq<char> {
    if b {
        "true"@
    } else {
        "false"@
    }
}

/// The parts in order, with `sep` between each two neighbours.
pub open spec fn joined(parts: Seq<Seq<char>>, sep: Seq<char>) -> Seq<char>
    decreases parts.len(),
{
    if parts.len() == 0 {
        Seq::empty()
    } else if parts.len() == 1 {
        parts[0]
    } else {
        joined(parts.drop_last(), sep) + sep + parts.last()
    }
}

/// The views of a list of strings.
pub open spec fn texts(parts: Seq<String>) -> Seq<Seq<char>> {
    parts.map_values(|p: String| p@)
}

fn digit_str(d: u32) -> (r: &'static str)
    requires
        d < 10,
    ensures
        r@ == digit_text(d as int),
{
    match d {
        0 => "0",
        1 => "1",
        2 => "2",
        3 => "3",
        4 => "4",
        5 => "5",
        6 => "6",
        7 => "7",
        8 => "8",
        _ => "9",
    }
}

fn push_natural(out: &mut String, n: u32)
    ensures
        final(out)@ == old(out)@ + natural_text(n as nat),
    decreases n,
{
    if n >= 10 {
        push_natural(out, n / 10);
    }
    out.append(digit_str(n % 10));
    proof {
        assert(old(out)@ + natural_text((n / 10) as nat) + digit_text((n % 10) as int)
            =~= old(out)@ + (natural_text((n / 10) as nat) + digit_text((n % 10) as int)));
    }
}

/// Decimal form of `n`, as `Display` writes an `i32`.
pub fn format_int(n: i32) -> (r: String)
    ensures
        r@ == int_text(n as int),
{
    let mut out = String::new();
    if n < 0 {
        out.append("-");
        let m: u32 = (-(n as i64)) as u32;
        push_natural(&mut out, m);
    } else {
        push_natural(&mut out, n as u32);
    }
    proof {
        if n >= 0 {
            assert(out@ =~= natural_text(n as nat));
        }
    }
    out
}

/// `true` or `false`, as `Display` writes a `bool`.
pub fn format_bool(b: bool) -> (r: String)
    ensures
        r@ == bool_text(b),
{
    if b {
        String::from_str("true")
    } else {
        String::from_str("false")
    }
}

/// A value that a query carries as text.
pub trait ParamText {
    /// The text of the value.
    spec fn text_view(&self) -> Seq<char>;

    fn param_text(&self) -> (r: String)
        ensures
            r@ == self.text_view(),
    ;
}

impl ParamText for i32 {
    open spec fn text_view(&self) -> Seq<char> {
        int_text(*self as int)
    }

    fn param_text(&self) -> (r: String) {
        format_int(*self)
    }
}

impl ParamText for bool {
    open spec fn text_view(&self) -> Seq<char> {
        bool_text(*self)
    }

    fn param_text(&self) -> (r: String) {
        format_bool(*self)
    }
}

impl ParamText for String {
    open spec fn text_view(&self) -> Seq<char> {
        self@
    }

    fn param_text(&self) -> (r: String) {
        self.clone()
    }
}

/// The texts of a list of values.
pub open spec fn item_texts<T: ParamText>(items: Seq<T>) -> Seq<Seq<char>> {
    items.map_values(|x: T| x.text_view())
}

/// Relies on `itertools::join`: the `Display` form of each element (for a
/// `String`, the string itself), in order, separated by `,`.
#[verifier::external_body]
fn join_commas(parts: &Vec<String>) -> (r: String)
    ensures
        r@ == joined(texts(parts@), ","@),
{
    itertools::join(parts, ",")
}

/// The values' texts in order, separated by commas.
pub fn list_text<T: ParamText>(items: &[T]) -> (r: String)
    ensures
        r@ == joined(item_texts(items@), ","@),
{
    let mut parts: Vec<String> = Vec::new();
    let mut i: usize = 0;
    while i < items.len()
        invariant
            i <= items@.len(),
            parts@.len() == i,
            forall|j: int| 0 <= j < i ==> #[trigger] parts@[j]@ == items@[j].text_view(),
        decreases items@.len() - i,
    {
        let t = items[i].param_text();
        parts.push(t);
        i = i + 1;
    }
    assert(texts(parts@) =~= item_texts(items@));
    join_commas(&parts)
}

} // verus!
