//! Terminal-size resolution.
//!
//! A PTY must be opened with a concrete geometry. The size is taken, in
//! order of precedence, from an explicit caller-supplied size (clamped to a
//! minimum of one cell in each dimension), from a probe of the controlling
//! terminal (standard output first, then standard input), and finally from
//! the conventional environment variables for lines and columns, both of
//! which must parse as positive integers. The host performs the probes and
//! reads the environment; this module makes every decision about the values
//! so obtained.

use vstd::prelude::*;

verus! {

/// A resolved terminal geometry: both dimensions are at least one cell.
#[derive(Clone, Copy, Debug, PartialEq, Eq, Structural)]
pub struct TerminalSize {
    pub rows: u16,
    pub cols: u16,
}

impl TerminalSize {
    /// Both dimensions are positive; a zero dimension never reaches a PTY.
    pub open spec fn wf(self) -> bool {
        self.rows >= 1 && self.cols >= 1
    }
}

/// No explicit, probed, or environment-derived size was available.
#[derive(Clone, Copy, Debug, PartialEq, Eq, Structural)]
pub struct SizeUnavailable;

pub open spec fn is_dec_digit(c: char) -> bool {
    48 <= c as int && c as int <= 57
}

pub open spec fn dec_digit_value(c: char) -> int {
    c as int - 48
}

pub open spec fn all_dec_digits(s: Seq<char>) -> bool {
    forall|i: int| 0 <= i < s.len() ==> is_dec_digit(#[trigger] s[i])
}

/// Value of a digit string read most-significant first.
pub open spec fn dec_value(s: Seq<char>) -> int
    decreases s.len(),
{
    if s.len() == 0 {
        0
    } else {
        dec_value(s.drop_last()) * 10 + dec_digit_value(s.last())
    }
}

/// The digits of a numeral: a single leading plus sign is accepted.
pub open spec fn numeral_digits(s: Seq<char>) -> Seq<char> {
    if s.len() > 0 && s[0] == '+' {
        s.skip(1)
    } else {
        s
    }
}

/// What the standard unsigned 16-bit parser accepts: an optional leading
/// plus sign, then one or more decimal digits, with a value that fits.
pub open spec fn parsed_u16(s: Seq<char>) -> Option<u16> {
    let ds = numeral_digits(s);
    if ds.len() > 0 && all_dec_digits(ds) && dec_value(ds) <= u16::MAX {
        Some(dec_value(ds) as u16)
    } else {
        None
    }
}

pub proof fn lemma_dec_value_nonneg(s: Seq<char>)
    requires
        all_dec_digits(s),
    ensures
        dec_value(s) >= 0,
    decreases s.len(),
{
    if s.len() > 0 {
        assert(all_dec_digits(s.drop_last()));
        lemma_dec_value_nonneg(s.drop_last());
    }
}

/// A digit string is worth at least any of its prefixes.
pub proof fn lemma_dec_value_prefix_le(s: Seq<char>, i: int)
    requires
        all_dec_digits(s),
        0 <= i <= s.len(),
    ensures
        dec_value(s.subrange(0, i)) <= dec_value(s),
    decreases s.len() - i,
{
    if i == s.len() {
        assert(s.subrange(0, i) =~= s);
    } else {
        let t = s.subrange(0, i + 1);
        assert(t.drop_last() =~= s.subrange(0, i));
        lemma_dec_value_nonneg(s.subrange(0, i));
        assert(dec_value(t) == dec_value(s.subrange(0, i)) * 10 + dec_digit_value(s[i]));
        assert(dec_value(s.subrange(0, i)) <= dec_value(t)) by {
            assert(dec_value(s.subrange(0, i)) * 10 >= dec_value(s.subrange(0, i)));
        }
        lemma_dec_value_prefix_le(s, i + 1);
    }
}

/// Parse an unsigned 16-bit decimal numeral, exactly as the standard
/// parser for that type does: an optional leading plus sign, one or more
/// decimal digits, no other characters, and a value of at most 65535.
pub fn parse_u16(s: &str) -> (r: Option<u16>)
    ensures
        r == parsed_u16(s@),
{
    let n = s.unicode_len();
    if n == 0 {
        return None;
    }
    let first = s.get_char(0);
    let start: usize = if (first as u32) == 43 {
        1
    } else {
        0
    };
    proof {
        assert(numeral_digits(s@) =~= s@.subrange(start as int, n as int));
    }
    if start == n {
        return None;
    }
    let ghost ds = s@.subrange(start as int, n as int);
    let mut value: u32 = 0;
    let mut i: usize = start;
    while i < n
        invariant
            start <= i <= n,
            n == s@.len(),
            ds =~= s@.subrange(start as int, n as int),
            ds == numeral_digits(s@),
            ds.len() == n - start,
            all_dec_digits(ds.subrange(0, i - start)),
            value == dec_value(ds.subrange(0, i - start)),
            value <= 65535,
        decreases n - i,
    {
        let c = s.get_char(i);
        let cv = c as u32;
        proof {
            assert(ds[i - start] == s@[i as int]);
        }
        if cv < 48 || cv > 57 {
            proof {
                assert(!is_dec_digit(ds[i - start]));
                assert(!all_dec_digits(ds));
            }
            return None;
        }
        let d = cv - 48;
        let next: u32 = value * 10 + d;
        proof {
            let p = ds.subrange(0, i - start);
            let q = ds.subrange(0, i + 1 - start);
            assert(q.drop_last() =~= p);
            assert(q.last() == ds[i - start]);
            assert(all_dec_digits(q));
            assert(dec_value(q) == next);
        }
        if next > 65535 {
            proof {
                if all_dec_digits(ds) {
                    lemma_dec_value_prefix_le(ds, i + 1 - start);
                    assert(dec_value(ds) > 65535);
                }
            }
            return None;
        }
        value = next;
        i = i + 1;
    }
    proof {
        assert(ds.subrange(0, n - start) =~= ds);
        lemma_dec_value_nonneg(ds);
    }
    Some(value as u16)
}

/// View of an optional string as an optional character sequence.
pub open spec fn opt_chars(s: Option<&str>) -> Option<Seq<char>> {
    match s {
        Some(x) => Some(x@),
        None => None,
    }
}

/// The size the environment fallback yields: both variables must be
/// present, both must parse, and both must be positive; a partial or
/// invalid pair is rejected as a unit.
pub open spec fn env_size_of(rows: Option<Seq<char>>, cols: Option<Seq<char>>) -> Option<(u16, u16)> {
    match (rows, cols) {
        (Some(r), Some(c)) => match (parsed_u16(r), parsed_u16(c)) {
            (Some(rv), Some(cv)) => if rv == 0 || cv == 0 {
                None
            } else {
                Some((rv, cv))
            },
            _ => None,
        },
        _ => None,
    }
}

/// Read a terminal size from the values of the two conventional
/// environment variables for lines and columns.
pub fn parse_env_size(rows: Option<&str>, cols: Option<&str>) -> (r: Option<(u16, u16)>)
    ensures
        r == env_size_of(opt_chars(rows), opt_chars(cols)),
{
    let rv = match rows {
        Some(s) => parse_u16(s),
        None => None,
    };
    let cv = match cols {
        Some(s) => parse_u16(s),
        None => None,
    };
    match (rv, cv) {
        (Some(a), Some(b)) => if a == 0 || b == 0 {
            None
        } else {
            Some((a, b))
        },
        _ => None,
    }
}

/// What a window-size probe of one handle yields: a failed probe or a zero
/// dimension counts as no size.
pub open spec fn probe_size_of(probe: Option<(u16, u16)>) -> Option<(u16, u16)> {
    match probe {
        Some((r, c)) => if r == 0 || c == 0 {
            None
        } else {
            Some((r, c))
        },
        None => None,
    }
}

/// The detected size: the standard-output probe, else the standard-input
/// probe, else the environment fallback.
pub open spec fn detected_size_of(
    stdout_probe: Option<(u16, u16)>,
    stdin_probe: Option<(u16, u16)>,
    env_rows: Option<Seq<char>>,
    env_cols: Option<Seq<char>>,
) -> Option<(u16, u16)> {
    if probe_size_of(stdout_probe) is Some {
        probe_size_of(stdout_probe)
    } else if probe_size_of(stdin_probe) is Some {
        probe_size_of(stdin_probe)
    } else {
        env_size_of(env_rows, env_cols)
    }
}

/// Choose a terminal size from the two window-size probes and the
/// environment values, in that order of precedence.
pub fn detect_terminal_size(
    stdout_probe: Option<(u16, u16)>,
    stdin_probe: Option<(u16, u16)>,
    env_rows: Option<&str>,
    env_cols: Option<&str>,
) -> (r: Option<(u16, u16)>)
    ensures
        r == detected_size_of(stdout_probe, stdin_probe, opt_chars(env_rows), opt_chars(env_cols)),
{
    match stdout_probe {
        Some((rows, cols)) if rows != 0 && cols != 0 => {
            return Some((rows, cols));
        },
        _ => {},
    }
    match stdin_probe {
        Some((rows, cols)) if rows != 0 && cols != 0 => {
            return Some((rows, cols));
        },
        _ => {},
    }
    parse_env_size(env_rows, env_cols)
}

/// The fully resolved size: an explicit size wins and is clamped to a
/// minimum of one cell per dimension; otherwise the detected size is used
/// as it stands; otherwise there is no size.
pub open spec fn resolved_size_of(
    explicit: Option<(u16, u16)>,
    stdout_probe: Option<(u16, u16)>,
    stdin_probe: Option<(u16, u16)>,
    env_rows: Option<Seq<char>>,
    env_cols: Option<Seq<char>>,
) -> Option<(u16, u16)> {
    let chosen = match explicit {
        Some(s) => Some(s),
        None => detected_size_of(stdout_probe, stdin_probe, env_rows, env_cols),
    };
    match chosen {
        Some((r, c)) => Some(
            ((if r == 0 { 1u16 } else { r }), (if c == 0 { 1u16 } else { c })),
        ),
        None => None,
    }
}

/// Resolve the geometry to allocate for a PTY. Succeeds exactly when an
/// explicit size is given or a size can be detected; the result always has
/// both dimensions positive.
pub fn resolve(
    explicit: Option<(u16, u16)>,
    stdout_probe: Option<(u16, u16)>,
    stdin_probe: Option<(u16, u16)>,
    env_rows: Option<&str>,
    env_cols: Option<&str>,
) -> (r: Result<TerminalSize, SizeUnavailable>)
    ensures
        match r {
            Ok(size) => {
                &&& size.wf()
                &&& resolved_size_of(
                    explicit,
                    stdout_probe,
                    stdin_probe,
                    opt_chars(env_rows),
                    opt_chars(env_cols),
                ) == Some((size.rows, size.cols))
            },
            Err(_) => resolved_size_of(
                explicit,
                stdout_probe,
                stdin_probe,
                opt_chars(env_rows),
                opt_chars(env_cols),
            ) is None,
        },
{
    let chosen = match explicit {
        Some(s) => Some(s),
        None => detect_terminal_size(stdout_probe, stdin_probe, env_rows, env_cols),
    };
    match chosen {
        Some((rows, cols)) => Ok(
            TerminalSize {
                rows: if rows == 0 { 1 } else { rows },
                cols: if cols == 0 { 1 } else { cols },
            },
        ),
        None => Err(SizeUnavailable),
    }
}

/// An explicit size with both dimensions positive is returned exactly as
/// given, whatever the probes and the environment say.
pub proof fn lemma_explicit_size_wins(
    rows: u16,
    cols: u16,
    stdout_probe: Option<(u16, u16)>,
    stdin_probe: Option<(u16, u16)>,
    env_rows: Option<Seq<char>>,
    env_cols: Option<Seq<char>>,
)
    requires
        rows >= 1,
        cols >= 1,
    ensures
        resolved_size_of(Some((rows, cols)), stdout_probe, stdin_probe, env_rows, env_cols)
            == Some((rows, cols)),
{
}

/// When no explicit size is given and neither probe yields a usable size,
/// a valid environment pair decides the resolved size.
pub proof fn lemma_env_size_fallback(
    stdout_probe: Option<(u16, u16)>,
    stdin_probe: Option<(u16, u16)>,
    env_rows: Option<Seq<char>>,
    env_cols: Option<Seq<char>>,
    rows: u16,
    cols: u16,
)
    requires
        probe_size_of(stdout_probe) is None,
        probe_size_of(stdin_probe) is None,
        env_size_of(env_rows, env_cols) == Some((rows, cols)),
    ensures
        resolved_size_of(None, stdout_probe, stdin_probe, env_rows, env_cols)
            == Some((rows, cols)),
{
}

} // verus!
