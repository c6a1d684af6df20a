//! Settings read once at startup: the admin list and the listen port.
use vstd::prelude::*;
use vstd::string::*;
use crate::text::{trim_text, trimmed};

verus! {

/// The fields of `s` between commas, in order; text without a comma is one field.
pub open spec fn comma_fields(s: Seq<char>) -> Seq<Seq<char>>
    decreases s.len(),
{
    if s.len() == 0 {
        seq![Seq::empty()]
    } else {
        let fields = comma_fields(s.drop_last());
        if s.last() == ',' {
            fields.push(Seq::empty())
        } else {
            fields.update(fields.len() - 1, fields.last().push(s.last()))
        }
    }
}

/// The trimmed fields that are not blank, in order.
pub open spec fn kept_ids(fields: Seq<Seq<char>>) -> Seq<Seq<char>>
    decreases fields.len(),
{
    if fields.len() == 0 {
        Seq::empty()
    } else {
        let kept = kept_ids(fields.drop_last());
        if trimmed(fields.last()).len() > 0 {
            kept.push(trimmed(fields.last()))
        } else {
            kept
        }
    }
}

/// The admin ids named by a comma-separated list.
pub open spec fn admin_ids_spec(list: Seq<char>) -> Seq<Seq<char>> {
    kept_ids(comma_fields(list))
}

/// Splits a comma-separated list of admin ids, trims each and drops the blank
/// ones. An empty list admits nobody.
pub fn parse_admin_ids(list: &str) -> (r: Vec<String>)
    ensures
        r@.map_values(|a: String| a@) == admin_ids_spec(list@),
{
    let n = list.unicode_len();
    let mut ids: Vec<String> = Vec::new();
    let mut start: usize = 0;
    let mut i: usize = 0;
    proof {
        assert(list@.take(0) =~= Seq::<char>::empty());
    }
    while i < n
        invariant
            n == list@.len(),
            start <= i <= n,
            comma_fields(list@.take(i as int)).len() >= 1,
            comma_fields(list@.take(i as int)).last() == list@.subrange(start as int, i as int),
            ids@.map_values(|a: String| a@) == kept_ids(comma_fields(list@.take(i as int)).drop_last()),
        decreases n - i,
    {
        let c = list.get_char(i);
        let ghost fields = comma_fields(list@.take(i as int));
        proof {
            assert(list@.take(i + 1).drop_last() =~= list@.take(i as int));
            assert(list@.take(i + 1).last() == c);
        }
        if c == ',' {
            let piece = list.substring_char(start, i);
            let t = trim_text(piece);
            let ghost before = ids@.map_values(|a: String| a@);
            if t.unicode_len() > 0 {
                ids.push(t.to_owned());
                assert(ids@.map_values(|a: String| a@) =~= before.push(t@));
            }
            proof {
                let next = comma_fields(list@.take(i + 1));
                assert(next == fields.push(Seq::empty()));
                assert(next.drop_last() =~= fields);
                assert(fields =~= fields.drop_last().push(fields.last()));
                assert(list@.subrange(i + 1, i + 1) =~= Seq::<char>::empty());
            }
            start = i + 1;
        } else {
            proof {
                let next = comma_fields(list@.take(i + 1));
                assert(next.drop_last() =~= fields.drop_last());
                assert(list@.subrange(start as int, i + 1) =~= list@.subrange(start as int, i as int).push(c));
            }
        }
        i = i + 1;
    }
    let piece = list.substring_char(start, n);
    let t = trim_text(piece);
    let ghost before = ids@.map_values(|a: String| a@);
    proof {
        let fields = comma_fields(list@.take(n as int));
        assert(list@.take(n as int) =~= list@);
        assert(fields =~= fields.drop_last().push(fields.last()));
    }
    if t.unicode_len() > 0 {
        ids.push(t.to_owned());
        assert(ids@.map_values(|a: String| a@) =~= before.push(t@));
    }
    ids
}

/// The value of a string of decimal digits.
pub open spec fn digits_value(d: Seq<char>) -> int
    decreases d.len(),
{
    if d.len() == 0 {
        0
    } else {
        digits_value(d.drop_last()) * 10 + (d.last() as int - '0' as int)
    }
}

/// What `u16` parsing accepts: an optional `+`, then one or more decimal
/// digits whose value fits in 16 bits.
pub open spec fn decimal_u16(s: Seq<char>) -> Option<u16> {
    let d = if s.len() > 0 && s[0] == '+' {
        s.drop_first()
    } else {
        s
    };
    if d.len() > 0 && (forall|i: int| 0 <= i < d.len() ==> '0' <= #[trigger] d[i] <= '9') && digits_value(d)
        <= 65535 {
        Some(digits_value(d) as u16)
    } else {
        None
    }
}

/// Relies on `str::parse::<u16>`: decimal digits after an optional `+`, and
/// an error for anything else or for a value out of range.
#[verifier::external_body]
fn parse_u16(s: &str) -> (r: Option<u16>)
    ensures
        r == decimal_u16(s@),
{
    s.parse::<u16>().ok()
}

/// The port used where none is configured or the setting is not a port number.
pub const DEFAULT_PORT: u16 = 8080;

/// The listen port: the configured one where it parses, else `DEFAULT_PORT`.
pub fn listen_port(setting: Option<&str>) -> (r: u16)
    ensures
        r == match setting {
            Some(s) => match decimal_u16(s@) {
                Some(p) => p,
                None => DEFAULT_PORT,
            },
            None => DEFAULT_PORT,
        },
{
    match setting {
        Some(s) => match parse_u16(s) {
            Some(p) => p,
            None => DEFAULT_PORT,
        },
        None => DEFAULT_PORT,
    }
}

} // verus!
