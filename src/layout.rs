use crate::clock::CivilDate;
use crate::station::Station;
use vstd::prelude::*;

verus! {

/// The character of a decimal digit.
pub open spec fn digit_char(d: nat) -> char {
    if d == 0 { '0' }
    else if d == 1 { '1' }
    else if d == 2 { '2' }
    else if d == 3 { '3' }
    else if d == 4 { '4' }
    else if d == 5 { '5' }
    else if d == 6 { '6' }
    else if d == 7 { '7' }
    else if d == 8 { '8' }
    else { '9' }
}

/// The decimal digits of `n`, most significant first, without padding.
pub open spec fn decimal(n: nat) -> Seq<char>
    decreases n,
{
    if n < 10 {
        seq![digit_char(n)]
    } else {
        decimal(n / 10) + seq![digit_char(n % 10)]
    }
}

/// The decimal form of a signed number, with a leading '-' when negative.
pub open spec fn signed_decimal(n: int) -> Seq<char> {
    if n < 0 {
        seq!['-'] + decimal((-n) as nat)
    } else {
        decimal(n as nat)
    }
}

pub open spec fn separator() -> Seq<char> {
    seq!['/']
}

/// The folder name of a station: `L<line>_<tag>`.
pub open spec fn station_label(s: Station) -> Seq<char> {
    seq!['L'] + decimal(s.line as nat) + seq!['_'] + s.name.tag()
}

/// The folder that files of `station` modified on `date` are archived in:
/// `<output>/L<line>_<tag>/<year>/<month>/<day>`.
pub open spec fn destination_dir_spec(output_dir: Seq<char>, station: Station, date: CivilDate) -> Seq<char> {
    output_dir + separator() + station_label(station) + separator() + signed_decimal(date.year as int)
        + separator() + decimal(date.month as nat) + separator() + decimal(date.day as nat)
}

/// A file name placed inside a folder.
pub open spec fn join_spec(dir: Seq<char>, name: Seq<char>) -> Seq<char> {
    dir + separator() + name
}

fn digit_str(d: u64) -> (r: &'static str)
    requires
        d < 10,
    ensures
        r@ == seq![digit_char(d as nat)],
{
    proof {
        reveal_strlit("0");
        reveal_strlit("1");
        reveal_strlit("2");
        reveal_strlit("3");
        reveal_strlit("4");
        reveal_strlit("5");
        reveal_strlit("6");
        reveal_strlit("7");
        reveal_strlit("8");
        reveal_strlit("9");
    }
    if d == 0 { "0" }
    else if d == 1 { "1" }
    else if d == 2 { "2" }
    else if d == 3 { "3" }
    else if d == 4 { "4" }
    else if d == 5 { "5" }
    else if d == 6 { "6" }
    else if d == 7 { "7" }
    else if d == 8 { "8" }
    else { "9" }
}

/// Appends the decimal digits of `n` to `s`.
pub fn push_decimal(s: &mut String, n: u64)
    ensures
        final(s)@ == old(s)@ + decimal(n as nat),
    decreases n,
{
    if n >= 10 {
        push_decimal(s, n / 10);
    }
    s.append(digit_str(n % 10));
    assert(final(s)@ =~= old(s)@ + decimal(n as nat));
}

/// Appends the decimal form of a signed number to `s`.
pub fn push_signed_decimal(s: &mut String, n: i64)
    ensures
        final(s)@ == old(s)@ + signed_decimal(n as int),
{
    if n < 0 {
        proof {
            reveal_strlit("-");
        }
        s.append("-");
        let m: u64 = if n == i64::MIN { 9_223_372_036_854_775_808u64 } else { (-n) as u64 };
        push_decimal(s, m);
        assert(final(s)@ =~= old(s)@ + signed_decimal(n as int));
    } else {
        push_decimal(s, n as u64);
    }
}

fn push_separator(s: &mut String)
    ensures
        final(s)@ == old(s)@ + separator(),
{
    proof {
        reveal_strlit("/");
    }
    s.append("/");
}

impl Station {
    /// The folder name of the station, `L<line>_<tag>`.
    pub fn label(&self) -> (r: String)
        ensures
            r@ == station_label(*self),
    {
        proof {
            reveal_strlit("L");
            reveal_strlit("_");
        }
        let mut s = String::from_str("L");
        push_decimal(&mut s, self.line as u64);
        s.append("_");
        let tag = self.name.as_str();
        s.append(tag.as_str());
        assert(s@ =~= station_label(*self));
        s
    }
}

/// The folder that a file of `station` modified on `date` goes to. It depends on
/// these values alone: not on the time of the run, nor on where the file was.
pub fn destination_dir(output_dir: &str, station: &Station, date: CivilDate) -> (r: String)
    ensures
        r@ == destination_dir_spec(output_dir@, *station, date),
{
    let mut s = String::from_str(output_dir);
    push_separator(&mut s);
    let label = station.label();
    s.append(label.as_str());
    push_separator(&mut s);
    push_signed_decimal(&mut s, date.year as i64);
    push_separator(&mut s);
    push_decimal(&mut s, date.month as u64);
    push_separator(&mut s);
    push_decimal(&mut s, date.day as u64);
    assert(s@ =~= destination_dir_spec(output_dir@, *station, date));
    s
}

/// The path of the file `name` inside the folder `dir`.
pub fn join_path(dir: &str, name: &str) -> (r: String)
    ensures
        r@ == join_spec(dir@, name@),
{
    let mut s = String::from_str(dir);
    push_separator(&mut s);
    s.append(name);
    s
}

} // verus!
