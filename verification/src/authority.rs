use vstd::prelude::*;
use vstd::string::StrSliceExecFns;
use crate::errors::ParseError;

verus! {

pub open spec fn is_dec_digit(c: char) -> bool {
    '0' <= c && c <= '9'
}

/// An ASCII letter or digit.
pub open spec fn alphanumeric_char(c: char) -> bool {
    is_dec_digit(c) || ('a' <= c && c <= 'z') || ('A' <= c && c <= 'Z')
}

pub open spec fn digit_val(c: char) -> nat {
    if is_dec_digit(c) {
        (c as nat - 48) as nat
    } else {
        0
    }
}

/// The number a digit string denotes, read left to right.
pub open spec fn dec_value(s: Seq<char>) -> nat
    decreases s.len(),
{
    if s.len() == 0 {
        0
    } else {
        dec_value(s.drop_last()) * 10 + digit_val(s.last())
    }
}

pub open spec fn all_digits(s: Seq<char>) -> bool {
    forall|i: int| 0 <= i < s.len() ==> is_dec_digit(#[trigger] s[i])
}

/// What counts as a port: at least one character, digits only, value at
/// most 65535.
pub open spec fn valid_port_text(s: Seq<char>) -> bool {
    s.len() > 0 && all_digits(s) && dec_value(s) <= 65535
}

proof fn lemma_dec_value_prefix_le(s: Seq<char>, i: int)
    requires
        0 <= i <= s.len(),
    ensures
        dec_value(s.take(i)) <= dec_value(s),
    decreases s.len(),
{
    if i < s.len() {
        assert(s.drop_last().take(i) =~= s.take(i));
        lemma_dec_value_prefix_le(s.drop_last(), i);
    } else {
        assert(s.take(i) =~= s);
    }
}

/// Reads a port number. Fails, naming the text, unless the text is one or
/// more digits denoting a value up to 65535.
pub fn parse_port(s: &str) -> (r: Result<u16, ParseError>)
    ensures
        valid_port_text(s@) ==> r is Ok && r->Ok_0 == dec_value(s@),
        !valid_port_text(s@) ==> (r matches Err(e) && e@
            == crate::errors::ParseErrorView::InvalidPort(s@)),
{
    let n = s.unicode_len();
    if n == 0 {
        return Err(ParseError::InvalidPort(s.to_owned()));
    }
    let mut value: u32 = 0;
    let mut i: usize = 0;
    while i < n
        invariant
            0 <= i <= n,
            n == s@.len(),
            all_digits(s@.take(i as int)),
            value == dec_value(s@.take(i as int)),
            value <= 65535,
        decreases n - i,
    {
        let c = s.get_char(i);
        if c < '0' || c > '9' {
            assert(!all_digits(s@));
            return Err(ParseError::InvalidPort(s.to_owned()));
        }
        let d: u32 = c as u32 - 48;
        let next: u32 = value * 10 + d;
        proof {
            assert(s@.take(i + 1).drop_last() =~= s@.take(i as int));
            assert(s@.take(i + 1).last() == s@[i as int]);
        }
        if next > 65535 {
            proof {
                lemma_dec_value_prefix_le(s@, i + 1);
            }
            return Err(ParseError::InvalidPort(s.to_owned()));
        }
        value = next;
        i = i + 1;
    }
    proof {
        assert(s@.take(n as int) =~= s@);
    }
    Ok(value as u16)
}

/// Whether position `i` holds the first colon of `s`.
pub open spec fn first_colon_at(s: Seq<char>, i: int) -> bool {
    0 <= i < s.len() && s[i] == ':' && (forall|j: int| 0 <= j < i ==> s[j] != ':')
}

pub open spec fn has_colon(s: Seq<char>) -> bool {
    exists|i: int| 0 <= i < s.len() && s[i] == ':'
}

/// What a backend authority denotes: the host before the first colon and
/// the port after it, the port defaulting to 80 when no colon is present.
pub open spec fn authority_spec(s: Seq<char>) -> Result<(Seq<char>, u16), crate::errors::ParseErrorView> {
    if !has_colon(s) {
        Ok((s, 80u16))
    } else {
        let i = choose|i: int| first_colon_at(s, i);
        let port_text = s.skip(i + 1);
        if valid_port_text(port_text) {
            Ok((s.take(i), dec_value(port_text) as u16))
        } else {
            Err(crate::errors::ParseErrorView::InvalidPort(port_text))
        }
    }
}

proof fn lemma_first_colon_unique(s: Seq<char>, i: int, j: int)
    requires
        first_colon_at(s, i),
        first_colon_at(s, j),
    ensures
        i == j,
{
}

/// Splits a backend authority of the form `host` or `host:port`. A bare
/// host gets port 80; a malformed port fails, naming the offending text.
pub fn parse_authority(s: &str) -> (r: Result<(String, u16), ParseError>)
    ensures
        match (r, authority_spec(s@)) {
            (Ok((host, port)), Ok((host_s, port_s))) => host@ == host_s && port == port_s,
            (Err(e), Err(e_s)) => e@ == e_s,
            _ => false,
        },
{
    let n = s.unicode_len();
    let mut i: usize = 0;
    while i < n
        invariant
            0 <= i <= n,
            n == s@.len(),
            forall|j: int| 0 <= j < i ==> s@[j] != ':',
        decreases n - i,
    {
        let c = s.get_char(i);
        if c == ':' {
            proof {
                assert(first_colon_at(s@, i as int));
                let w = choose|w: int| first_colon_at(s@, w);
                lemma_first_colon_unique(s@, i as int, w);
            }
            let host = s.substring_char(0, i).to_owned();
            let port_text = s.substring_char(i + 1, n);
            let port = match parse_port(port_text) {
                Ok(p) => p,
                Err(e) => {
                    return Err(e);
                },
            };
            return Ok((host, port));
        }
        i = i + 1;
    }
    assert(!has_colon(s@));
    Ok((s.to_owned(), 80))
}

/// The backend instance endpoints one route declares, each authority read
/// as `parse_authority` reads it; the first malformed authority aborts.
pub open spec fn backend_targets_spec(backends: Seq<Seq<char>>) -> Result<
    Seq<(Seq<char>, u16)>,
    crate::errors::ParseErrorView,
>
    decreases backends.len(),
{
    if backends.len() == 0 {
        Ok(Seq::empty())
    } else {
        match backend_targets_spec(backends.drop_last()) {
            Err(e) => Err(e),
            Ok(front) => match authority_spec(backends.last()) {
                Err(e) => Err(e),
                Ok(t) => Ok(front.push(t)),
            },
        }
    }
}

/// Reads every backend authority of a route. Backend registration is an
/// extension point: callers decide what to do with the endpoints.
pub fn backend_targets(backends: &Vec<String>) -> (r: Result<Vec<(String, u16)>, ParseError>)
    ensures
        match (r, backend_targets_spec(backends.deep_view())) {
            (Ok(ts), Ok(ts_s)) => ts.deep_view() == ts_s,
            (Err(e), Err(e_s)) => e@ == e_s,
            _ => false,
        },
{
    let mut out: Vec<(String, u16)> = Vec::new();
    let n = backends.len();
    let mut i: usize = 0;
    proof {
        assert(backends.deep_view().take(0) =~= Seq::<Seq<char>>::empty());
        assert(out.deep_view() =~= Seq::<(Seq<char>, u16)>::empty());
    }
    while i < n
        invariant
            0 <= i <= n,
            n == backends.len(),
            backend_targets_spec(backends.deep_view().take(i as int)) == Ok::<_,
                crate::errors::ParseErrorView,
            >(out.deep_view()),
        decreases n - i,
    {
        let ghost prefix = backends.deep_view().take(i as int);
        let ghost out_before = out.deep_view();
        proof {
            assert(backends.deep_view()[i as int] == backends[i as int]@);
        }
        match parse_authority(backends[i].as_str()) {
            Ok(t) => {
                let ghost tv = (t.0@, t.1);
                out.push(t);
                proof {
                    assert(out.deep_view() =~= out_before.push(tv));
                    assert(backends.deep_view().take(i + 1).drop_last() =~= prefix);
                    assert(backends.deep_view().take(i + 1).last()
                        == backends.deep_view()[i as int]);
                }
            },
            Err(e) => {
                proof {
                    lemma_backend_targets_err(backends.deep_view(), i as int);
                }
                return Err(e);
            },
        }
        i = i + 1;
    }
    proof {
        assert(backends.deep_view().take(n as int) =~= backends.deep_view());
    }
    Ok(out)
}

/// If the prefix succeeds and entry `i` is malformed, the whole list fails
/// with entry `i`'s error.
proof fn lemma_backend_targets_err(backends: Seq<Seq<char>>, i: int)
    requires
        0 <= i < backends.len(),
        backend_targets_spec(backends.take(i)) is Ok,
        authority_spec(backends[i]) is Err,
    ensures
        backend_targets_spec(backends) == Result::<Seq<(Seq<char>, u16)>, _>::Err(
            authority_spec(backends[i])->Err_0,
        ),
    decreases backends.len(),
{
    if i == backends.len() - 1 {
        assert(backends.take(i) =~= backends.drop_last());
    } else {
        assert(backends.drop_last().take(i) =~= backends.take(i));
        assert(backends.drop_last()[i] == backends[i]);
        lemma_backend_targets_err(backends.drop_last(), i);
    }
}

} // verus!
