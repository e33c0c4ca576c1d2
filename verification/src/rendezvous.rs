//! The rendezvous file through which two network probes find each other.
//!
//! It holds three lines, `endpoint_id=…`, `relay_url=…` and `ip=…`, where `-` stands for a
//! value that is absent. Lines are read as `str::lines` reads them.

use vstd::prelude::*;

use crate::error::EvalError;
use crate::lines::{
    index_of_from, index_of_from_is, line_fits, line_up_to_break, line_view, lines_from,
    lines_from_shift, next_line, nth_line, text_lines,
};
use crate::text::str_eq;

verus! {

/// The value of a line `key=value`: present when the text before the first `=` is `key` and
/// the text after it is not empty.
pub open spec fn required_value(line: Option<Seq<char>>, key: Seq<char>) -> Option<Seq<char>> {
    match line {
        None => None,
        Some(l) => {
            let eq = index_of_from(l, '=', 0);
            if eq < l.len() && l.subrange(0, eq as int) == key && eq + 1 < l.len() {
                Some(l.subrange(eq + 1 as int, l.len() as int))
            } else {
                None
            }
        },
    }
}

/// The value of a line `key=value` where `-` stands for no value.
pub open spec fn optional_value(line: Option<Seq<char>>, key: Seq<char>) -> Option<
    Option<Seq<char>>,
> {
    match required_value(line, key) {
        None => None,
        Some(v) => Some(
            if v == "-"@ {
                None
            } else {
                Some(v)
            },
        ),
    }
}

/// What a rendezvous holds: the endpoint id, and the relay URL and IP address where known.
pub type RendezvousView = (Seq<char>, Option<Seq<char>>, Option<Seq<char>>);

/// The rendezvous that a text describes, if it is one.
pub open spec fn rendezvous_of_text(s: Seq<char>) -> Option<RendezvousView> {
    let lines = text_lines(s);
    match (
        required_value(nth_line(lines, 0), "endpoint_id"@),
        optional_value(nth_line(lines, 1), "relay_url"@),
        optional_value(nth_line(lines, 2), "ip"@),
    ) {
        (Some(id), Some(relay), Some(ip)) => if lines.len() <= 3 {
            Some((id, relay, ip))
        } else {
            None
        },
        _ => None,
    }
}

pub open spec fn value_text(v: Option<Seq<char>>) -> Seq<char> {
    match v {
        Some(t) => t,
        None => "-"@,
    }
}

/// The text that a rendezvous is written as.
pub open spec fn rendezvous_text(r: RendezvousView) -> Seq<char> {
    "endpoint_id="@ + r.0 + "\nrelay_url="@ + value_text(r.1) + "\nip="@ + value_text(r.2)
        + "\n"@
}

/// A value that reads back as itself: not empty, without a line break, and not ending in `\r`.
pub open spec fn value_fits(v: Seq<char>) -> bool {
    &&& v.len() > 0
    &&& forall|i: int| 0 <= i < v.len() ==> v[i] != '\n'
    &&& v.last() != '\r'
}

pub open spec fn optional_fits(v: Option<Seq<char>>) -> bool {
    match v {
        Some(t) => value_fits(t) && t != "-"@,
        None => true,
    }
}

/// A rendezvous whose text reads back as itself.
pub open spec fn rendezvous_fits(r: RendezvousView) -> bool {
    value_fits(r.0) && optional_fits(r.1) && optional_fits(r.2)
}

/// Where two network probes meet: the endpoint id of the one that listens, and the relay URL
/// and IP address at which it can be reached, where known.
#[derive(Debug, Clone, PartialEq, Eq)]
pub struct Rendezvous {
    endpoint_id: String,
    relay_url: Option<String>,
    ip: Option<String>,
}

impl View for Rendezvous {
    type V = RendezvousView;

    closed spec fn view(&self) -> RendezvousView {
        (self.endpoint_id@, self.relay_url.deep_view(), self.ip.deep_view())
    }
}

/// The value of a line `key=value`: `InvalidValue` when the line is missing, holds no `=`,
/// names another key, or has an empty value.
fn parse_required<'a>(line: Option<&'a str>, key: &str) -> (r: Result<&'a str, EvalError>)
    ensures
        match r {
            Ok(v) => required_value(line_view(line), key@) == Some(v@),
            Err(e) => e == EvalError::InvalidValue && required_value(line_view(line), key@)
                is None,
        },
{
    match line {
        None => Err(EvalError::InvalidValue),
        Some(l) => {
            let n = l.unicode_len();
            let mut eq: usize = 0;
            while eq < n
                invariant
                    n == l@.len(),
                    eq <= n,
                    index_of_from(l@, '=', 0) == index_of_from(l@, '=', eq as nat),
                ensures
                    eq <= n,
                    index_of_from(l@, '=', 0) == eq,
                decreases n - eq,
            {
                if l.get_char(eq) == '=' {
                    break;
                }
                eq = eq + 1;
            }
            if eq == n {
                return Err(EvalError::InvalidValue);
            }
            let actual = l.substring_char(0, eq);
            if !str_eq(actual, key) || eq + 1 == n {
                return Err(EvalError::InvalidValue);
            }
            Ok(l.substring_char(eq + 1, n))
        },
    }
}

/// The value of a line `key=value`, or no value where it reads `-`.
fn parse_optional<'a>(line: Option<&'a str>, key: &str) -> (r: Result<Option<&'a str>, EvalError>)
    ensures
        match r {
            Ok(v) => optional_value(line_view(line), key@) == Some(line_view(v)),
            Err(e) => e == EvalError::InvalidValue && optional_value(line_view(line), key@)
                is None,
        },
{
    let value = match parse_required(line, key) {
        Ok(v) => v,
        Err(e) => return Err(e),
    };
    proof {
        reveal_strlit("-");
    }
    if value.unicode_len() == 1 && value.get_char(0) == '-' {
        assert(value@ =~= "-"@);
        Ok(None)
    } else {
        Ok(Some(value))
    }
}

proof fn value_of_line(key: Seq<char>, value: Seq<char>, line: Seq<char>)
    requires
        line == key + "="@ + value,
        forall|i: int| 0 <= i < key.len() ==> key[i] != '=',
        value.len() > 0,
    ensures
        required_value(Some(line), key) == Some(value),
{
    reveal_strlit("=");
    assert("="@ =~= seq!['=']);
    index_of_from_is(line, '=', 0, key.len());
    assert(line.subrange(0, key.len() as int) =~= key);
    assert(line.subrange(key.len() + 1 as int, line.len() as int) =~= value);
}

proof fn three_lines(
    s: Seq<char>,
    line0: Seq<char>,
    line1: Seq<char>,
    line2: Seq<char>,
    rest: Seq<char>,
)
    requires
        s == line0 + seq!['\n'] + line1 + seq!['\n'] + line2 + seq!['\n'] + rest,
        line_fits(line0),
        line_fits(line1),
        line_fits(line2),
    ensures
        text_lines(s) == seq![line0, line1, line2] + text_lines(rest),
{
    let b0 = line0.len();
    let b1 = b0 + 1 + line1.len();
    let b2 = b1 + 1 + line2.len();
    let prefix = line0 + seq!['\n'] + line1 + seq!['\n'] + line2 + seq!['\n'];
    assert(prefix.len() == b2 + 1);
    assert(s.subrange(0, b0 as int) =~= line0);
    assert(s.subrange(b0 + 1 as int, b1 as int) =~= line1);
    assert(s.subrange(b1 + 1 as int, b2 as int) =~= line2);
    assert(s[b0 as int] == '\n');
    assert(s[b1 as int] == '\n');
    assert(s[b2 as int] == '\n');
    line_up_to_break(s, 0, b0, line0);
    line_up_to_break(s, b0 + 1, b1, line1);
    line_up_to_break(s, b1 + 1, b2, line2);
    lines_from_shift(prefix, rest, 0);
    assert(text_lines(s) =~= seq![line0, line1, line2] + text_lines(rest));
}

proof fn keyed_line_fits(key: Seq<char>, value: Seq<char>)
    requires
        forall|i: int| 0 <= i < key.len() ==> key[i] != '\n',
        value_fits(value),
    ensures
        line_fits(key + "="@ + value),
{
    reveal_strlit("=");
    let line = key + "="@ + value;
    assert(line.last() == value.last());
    assert forall|i: int| 0 <= i < line.len() implies line[i] != '\n' by {
        if i > key.len() {
            assert(line[i] == value[i - key.len() - 1]);
        }
    }
}

proof fn text_decomposes(r: RendezvousView)
    ensures
        rendezvous_text(r) == ("endpoint_id"@ + "="@ + r.0) + seq!['\n'] + ("relay_url"@ + "="@
            + value_text(r.1)) + seq!['\n'] + ("ip"@ + "="@ + value_text(r.2)) + seq!['\n'],
{
    reveal_strlit("endpoint_id=");
    reveal_strlit("\nrelay_url=");
    reveal_strlit("\nip=");
    reveal_strlit("\n");
    reveal_strlit("=");
    reveal_strlit("endpoint_id");
    reveal_strlit("relay_url");
    reveal_strlit("ip");
    assert(rendezvous_text(r) =~= ("endpoint_id"@ + "="@ + r.0) + seq!['\n'] + ("relay_url"@
        + "="@ + value_text(r.1)) + seq!['\n'] + ("ip"@ + "="@ + value_text(r.2)) + seq!['\n']);
}

/// Writing a rendezvous and reading its text back gives the same rendezvous, whenever each
/// value is one that reads back as itself.
pub proof fn rendezvous_text_round_trips(r: RendezvousView)
    requires
        rendezvous_fits(r),
    ensures
        rendezvous_of_text(rendezvous_text(r)) == Some(r),
{
    let v1 = value_text(r.1);
    let v2 = value_text(r.2);
    let line0 = "endpoint_id"@ + "="@ + r.0;
    let line1 = "relay_url"@ + "="@ + v1;
    let line2 = "ip"@ + "="@ + v2;
    text_decomposes(r);
    assert(value_fits(v1) && value_fits(v2)) by {
        reveal_strlit("-");
    }
    reveal_strlit("endpoint_id");
    reveal_strlit("relay_url");
    reveal_strlit("ip");
    keyed_line_fits("endpoint_id"@, r.0);
    keyed_line_fits("relay_url"@, v1);
    keyed_line_fits("ip"@, v2);
    assert(rendezvous_text(r) + Seq::<char>::empty() =~= rendezvous_text(r));
    three_lines(rendezvous_text(r), line0, line1, line2, Seq::empty());
    assert(text_lines(Seq::<char>::empty()) == Seq::<Seq<char>>::empty());
    assert(seq![line0, line1, line2] + Seq::<Seq<char>>::empty() =~= seq![line0, line1, line2]);
    value_of_line("endpoint_id"@, r.0, line0);
    value_of_line("relay_url"@, v1, line1);
    value_of_line("ip"@, v2, line2);
}

/// A rendezvous text followed by anything more (a further line) is refused: the text must
/// hold exactly three lines.
pub proof fn rendezvous_text_refuses_more(r: RendezvousView, more: Seq<char>)
    requires
        rendezvous_fits(r),
        more.len() > 0,
    ensures
        rendezvous_of_text(rendezvous_text(r) + more) is None,
{
    let v1 = value_text(r.1);
    let v2 = value_text(r.2);
    let line0 = "endpoint_id"@ + "="@ + r.0;
    let line1 = "relay_url"@ + "="@ + v1;
    let line2 = "ip"@ + "="@ + v2;
    text_decomposes(r);
    assert(value_fits(v1) && value_fits(v2)) by {
        reveal_strlit("-");
    }
    reveal_strlit("endpoint_id");
    reveal_strlit("relay_url");
    reveal_strlit("ip");
    keyed_line_fits("endpoint_id"@, r.0);
    keyed_line_fits("relay_url"@, v1);
    keyed_line_fits("ip"@, v2);
    let s = rendezvous_text(r) + more;
    assert(s =~= line0 + seq!['\n'] + line1 + seq!['\n'] + line2 + seq!['\n'] + more);
    three_lines(s, line0, line1, line2, more);
    assert(text_lines(more).len() > 0);
    assert(text_lines(s).len() > 3);
}

impl Rendezvous {
    pub fn new(endpoint_id: String, relay_url: Option<String>, ip: Option<String>) -> (r: Self)
        ensures
            r@ == (endpoint_id@, relay_url.deep_view(), ip.deep_view()),
    {
        Rendezvous { endpoint_id, relay_url, ip }
    }

    pub fn endpoint_id(&self) -> (r: &str)
        ensures
            r@ == self@.0,
    {
        self.endpoint_id.as_str()
    }

    pub fn relay_url(&self) -> (r: Option<&str>)
        ensures
            line_view(r) == self@.1,
    {
        match &self.relay_url {
            Some(url) => Some(url.as_str()),
            None => None,
        }
    }

    pub fn ip(&self) -> (r: Option<&str>)
        ensures
            line_view(r) == self@.2,
    {
        match &self.ip {
            Some(ip) => Some(ip.as_str()),
            None => None,
        }
    }

    /// Reads a rendezvous from its text: exactly the three lines `endpoint_id=`,
    /// `relay_url=` and `ip=`, in that order; anything else is `InvalidValue`.
    /// The values are kept as text: whether they name an endpoint, a relay URL and a socket
    /// address is not checked here but by the program that connects with them.
    pub fn parse(text: &str) -> (r: Result<Self, EvalError>)
        ensures
            match r {
                Ok(v) => rendezvous_of_text(text@) == Some(v@),
                Err(e) => e == EvalError::InvalidValue && rendezvous_of_text(text@) is None,
            },
    {
        let n = text.unicode_len();
        let ghost s = text@;
        let (first, p1) = next_line(text, n, 0);
        let (second, p2) = next_line(text, n, p1);
        let (third, p3) = next_line(text, n, p2);
        let (fourth, _p4) = next_line(text, n, p3);
        let ghost lines = text_lines(s);
        proof {
            let l1 = lines_from(s, p1 as nat);
            let l2 = lines_from(s, p2 as nat);
            let l3 = lines_from(s, p3 as nat);
            assert(nth_line(lines, 0) == line_view(first));
            assert(first is Some ==> l1 == lines.drop_first());
            assert(first is Some ==> nth_line(lines, 1) == nth_line(l1, 0));
            assert(nth_line(l1, 0) == line_view(second));
            assert(second is Some ==> l2 == l1.drop_first());
            assert(second is Some ==> nth_line(l1, 1) == nth_line(l2, 0));
            assert(nth_line(l2, 0) == line_view(third));
            assert(third is Some ==> l3 == l2.drop_first());
            assert(first is None ==> nth_line(lines, 0) is None);
            assert(first is Some && second is None ==> nth_line(lines, 1) is None);
            assert(first is Some && second is Some && third is None ==> nth_line(lines, 2) is None);
            assert(first is Some && second is Some && third is Some ==> lines.len() == 3 + l3.len()
                && nth_line(lines, 2) == line_view(third));
            assert(fourth is None <==> l3.len() == 0);
        }
        let endpoint_id = match parse_required(first, "endpoint_id") {
            Ok(v) => v,
            Err(e) => return Err(e),
        };
        let relay_url = match parse_optional(second, "relay_url") {
            Ok(v) => v,
            Err(e) => return Err(e),
        };
        let ip = match parse_optional(third, "ip") {
            Ok(v) => v,
            Err(e) => return Err(e),
        };
        if fourth.is_some() {
            return Err(EvalError::InvalidValue);
        }
        let relay_url = match relay_url {
            Some(v) => Some(v.to_owned()),
            None => None,
        };
        let ip = match ip {
            Some(v) => Some(v.to_owned()),
            None => None,
        };
        Ok(Rendezvous::new(endpoint_id.to_owned(), relay_url, ip))
    }

    /// The text the rendezvous is written as, `-` standing for each absent value.
    pub fn to_text(&self) -> (r: String)
        ensures
            r@ == rendezvous_text(self@),
    {
        let mut out = String::new();
        out.append("endpoint_id=");
        out.append(self.endpoint_id.as_str());
        out.append("\nrelay_url=");
        match &self.relay_url {
            Some(url) => out.append(url.as_str()),
            None => out.append("-"),
        }
        out.append("\nip=");
        match &self.ip {
            Some(ip) => out.append(ip.as_str()),
            None => out.append("-"),
        }
        out.append("\n");
        assert(out@ =~= rendezvous_text(self@));
        out
    }
}

} // verus!
