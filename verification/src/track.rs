//! Track descriptors and the minutes:seconds rendering of a duration.

use vstd::prelude::*;
use vstd::string::StringExecFns;

verus! {

/// One entry of a play queue.
#[derive(Debug)]
pub struct Track {
    pub uri: String,
    pub title: String,
    pub album: Option<String>,
    pub creator: Option<String>,
    pub duration: Option<u32>,
}

impl Clone for Track {
    fn clone(&self) -> (r: Self)
        ensures
            r == *self,
    {
        Track {
            uri: self.uri.clone(),
            title: self.title.clone(),
            album: match &self.album {
                Some(a) => Some(a.clone()),
                None => None,
            },
            creator: match &self.creator {
                Some(c) => Some(c.clone()),
                None => None,
            },
            duration: self.duration,
        }
    }
}

/// What is playing right now: the track and the elapsed/total seconds.
#[derive(Debug)]
pub struct TrackInfo {
    pub track: Track,
    pub elapsed: u32,
    pub duration: u32,
}

impl Clone for TrackInfo {
    fn clone(&self) -> (r: Self)
        ensures
            r == *self,
    {
        TrackInfo { track: self.track.clone(), elapsed: self.elapsed, duration: self.duration }
    }
}

/// The character of one decimal digit.
pub open spec fn digit_char(d: int) -> char {
    if d == 0 {
        '0'
    } else if d == 1 {
        '1'
    } else if d == 2 {
        '2'
    } else if d == 3 {
        '3'
    } else if d == 4 {
        '4'
    } else if d == 5 {
        '5'
    } else if d == 6 {
        '6'
    } else if d == 7 {
        '7'
    } else if d == 8 {
        '8'
    } else {
        '9'
    }
}

/// The decimal digits of a non-negative number, most significant first.
pub open spec fn decimal_digits(n: int) -> Seq<char>
    decreases n,
{
    if n < 10 {
        seq![digit_char(n)]
    } else {
        decimal_digits(n / 10) + seq![digit_char(n % 10)]
    }
}

/// A duration in seconds shown as minutes and two-digit seconds.
pub open spec fn duration_display(secs: int) -> Seq<char> {
    let m = secs / 60;
    let s = secs % 60;
    decimal_digits(m) + seq![':'] + (if s < 10 {
        seq!['0'] + decimal_digits(s)
    } else {
        decimal_digits(s)
    })
}

/// One decimal digit as text.
fn digit_str(d: u32) -> (r: &'static str)
    requires
        d < 10,
    ensures
        r@ == seq![digit_char(d as int)],
{
    let r: &'static str = match d {
        0 => "0",
        1 => "1",
        2 => "2",
        3 => "3",
        4 => "4",
        5 => "5",
        6 => "6",
        7 => "7",
        8 => "8",
        _ => "9",
    };
    proof {
        reveal_strlit("0");
        reveal_strlit("1");
        reveal_strlit("2");
        reveal_strlit("3");
        reveal_strlit("4");
        reveal_strlit("5");
        reveal_strlit("6");
        reveal_strlit("7");
        reveal_strlit("8");
        reveal_strlit("9");
        assert(r@ =~= seq![digit_char(d as int)]);
    }
    r
}

/// A number in decimal.
pub fn u32_decimal(n: u32) -> (r: String)
    ensures
        r@ == decimal_digits(n as int),
    decreases n,
{
    if n < 10 {
        digit_str(n).to_owned()
    } else {
        let mut s = u32_decimal(n / 10);
        s.append(digit_str(n % 10));
        s
    }
}

/// A track duration as "m:ss", the seconds always two digits.
pub fn format_duration(secs: u32) -> (r: String)
    ensures
        r@ == duration_display(secs as int),
{
    let minutes = secs / 60;
    let seconds = secs % 60;
    let mut out = u32_decimal(minutes);
    out.append(":");
    proof {
        reveal_strlit(":");
        reveal_strlit("0");
    }
    if seconds < 10 {
        out.append("0");
    }
    let tail = u32_decimal(seconds);
    out.append(tail.as_str());
    proof {
        assert(out@ =~= duration_display(secs as int));
    }
    out
}

} // verus!
