//! The audio-quality line of the now-playing panel.

use vstd::prelude::*;
use crate::text::{decimal, push_decimal, push_str};

verus! {

/// What stands between two parts of the quality line.
pub open spec fn quality_sep() -> Seq<char> {
    " │ "@
}

/// `parts` joined by `sep` (what `join` on a list of strings gives).
pub open spec fn join(parts: Seq<Seq<char>>, sep: Seq<char>) -> Seq<char>
    decreases parts.len(),
{
    if parts.len() == 0 {
        Seq::empty()
    } else if parts.len() == 1 {
        parts[0]
    } else {
        join(parts.drop_last(), sep) + sep + parts.last()
    }
}

/// One part when the value is there, none otherwise.
pub open spec fn part(o: Option<Seq<char>>) -> Seq<Seq<char>> {
    match o {
        Some(p) => seq![p],
        None => Seq::empty(),
    }
}

/// The sample rate in kHz: the whole number when the rate is a multiple of
/// 1000 Hz, `fractional_khz` (the one-decimal text of the rate in kHz)
/// otherwise; then "kHz".
pub open spec fn rate_text(rate: u32, fractional_khz: Seq<char>) -> Seq<char> {
    if rate % 1000 == 0 {
        decimal((rate / 1000) as nat) + "kHz"@
    } else {
        fractional_khz + "kHz"@
    }
}

/// The parts of the quality line, in order: the format (upper case), the bit
/// depth ("N-bit"), the sample rate and the channels, each when it is known.
pub open spec fn quality_parts(
    format_upper: Option<Seq<char>>,
    bit_depth: Option<u32>,
    sample_rate: Option<u32>,
    fractional_khz: Seq<char>,
    channels: Option<Seq<char>>,
) -> Seq<Seq<char>> {
    part(format_upper) + part(
        match bit_depth {
            Some(b) => Some(decimal(b as nat) + "-bit"@),
            None => None,
        },
    ) + part(
        match sample_rate {
            Some(r) => Some(rate_text(r, fractional_khz)),
            None => None,
        },
    ) + part(channels)
}

fn push_part(s: &mut String, Ghost(parts): Ghost<Seq<Seq<char>>>, first: bool, p: &str)
    requires
        old(s)@ == join(parts, quality_sep()),
        first == (parts.len() == 0),
    ensures
        final(s)@ == join(parts.push(p@), quality_sep()),
{
    assert(parts.push(p@).drop_last() =~= parts);
    if !first {
        push_str(s, " │ ");
    } else {
        assert(old(s)@ =~= Seq::<char>::empty());
    }
    push_str(s, p);
}

/// The quality line of the now-playing panel: its known parts joined by
/// " │ ". The caller gives the format already in upper case and, for a
/// sample rate that is no whole number of kHz, its one-decimal kHz text.
pub fn quality_line(
    format_upper: Option<&str>,
    bit_depth: Option<u32>,
    sample_rate: Option<u32>,
    fractional_khz: &str,
    channels: Option<&str>,
) -> (s: String)
    ensures
        s@ == join(
            quality_parts(
                match format_upper {
                    Some(f) => Some(f@),
                    None => None,
                },
                bit_depth,
                sample_rate,
                fractional_khz@,
                match channels {
                    Some(c) => Some(c@),
                    None => None,
                },
            ),
            quality_sep(),
        ),
{
    let ghost fmt = match format_upper {
        Some(f) => Some(f@),
        None => None,
    };
    let ghost bits = match bit_depth {
        Some(b) => Some(decimal(b as nat) + "-bit"@),
        None => None,
    };
    let ghost rate = match sample_rate {
        Some(r) => Some(rate_text(r, fractional_khz@)),
        None => None,
    };
    let ghost chans = match channels {
        Some(c) => Some(c@),
        None => None,
    };
    let mut s = String::new();
    let ghost mut parts: Seq<Seq<char>> = Seq::empty();
    let mut first = true;
    assert(s@ =~= join(parts, quality_sep()));
    if let Some(f) = format_upper {
        push_part(&mut s, Ghost(parts), first, f);
        first = false;
        proof {
            parts = parts.push(f@);
        }
    }
    assert(parts =~= part(fmt));
    if let Some(b) = bit_depth {
        let mut t = String::new();
        push_decimal(&mut t, b as u64);
        push_str(&mut t, "-bit");
        push_part(&mut s, Ghost(parts), first, t.as_str());
        first = false;
        proof {
            parts = parts.push(t@);
        }
    }
    assert(parts =~= part(fmt) + part(bits));
    if let Some(r) = sample_rate {
        let mut t = String::new();
        if r % 1000 == 0 {
            push_decimal(&mut t, (r / 1000) as u64);
        } else {
            push_str(&mut t, fractional_khz);
        }
        push_str(&mut t, "kHz");
        assert(t@ =~= rate_text(r, fractional_khz@));
        push_part(&mut s, Ghost(parts), first, t.as_str());
        first = false;
        proof {
            parts = parts.push(t@);
        }
    }
    assert(parts =~= part(fmt) + part(bits) + part(rate));
    if let Some(c) = channels {
        push_part(&mut s, Ghost(parts), first, c);
        proof {
            parts = parts.push(c@);
        }
    }
    assert(parts =~= quality_parts(fmt, bit_depth, sample_rate, fractional_khz@, chans));
    s
}

} // verus!
