//! Header names and values as text, and the builder that turns configured
//! string pairs into a header map.

use crate::error::{ConfigFault, InvalidConfig};
use crate::outside::{
    header_map_entries, header_map_new, header_map_try_insert, parse_header_name,
    parse_header_value, SURE_HEADER_ROOM,
};
use http::header::{HeaderMap, HeaderValue};
use vstd::prelude::*;
use vstd::utf8::encode_utf8;

verus! {

/// The longest header name, in bytes, that `http` accepts.
pub const MAX_HEADER_NAME_LEN: usize = 65535;

/// A character that may occur in a header name: a `tchar` of RFC 9110.
pub open spec fn is_token_char(c: char) -> bool {
    ||| 'a' <= c <= 'z'
    ||| 'A' <= c <= 'Z'
    ||| '0' <= c <= '9'
    ||| c == '!'
    ||| c == '#'
    ||| c == '$'
    ||| c == '%'
    ||| c == '&'
    ||| c == '\''
    ||| c == '*'
    ||| c == '+'
    ||| c == '-'
    ||| c == '.'
    ||| c == '^'
    ||| c == '_'
    ||| c == '`'
    ||| c == '|'
    ||| c == '~'
}

/// A legal header name: between one and 65535 token characters.
pub open spec fn is_header_name(text: Seq<char>) -> bool {
    &&& 1 <= text.len() <= MAX_HEADER_NAME_LEN
    &&& forall|i: int| 0 <= i < text.len() ==> is_token_char(#[trigger] text[i])
}

/// A character that may occur in a header value: a tab, or anything from the
/// space upwards except DEL.
pub open spec fn is_value_char(c: char) -> bool {
    c == '\t' || (' ' <= c && c != '\x7f')
}

/// A legal header value: any number of value characters.
pub open spec fn is_header_value(text: Seq<char>) -> bool {
    forall|i: int| 0 <= i < text.len() ==> is_value_char(#[trigger] text[i])
}

/// The lower-case form of an ASCII letter; any other character unchanged.
pub open spec fn ascii_lower(c: char) -> char {
    if 'A' <= c <= 'Z' {
        ((c as u8) + 32) as char
    } else {
        c
    }
}

/// The form under which a header map files a name: its letters in lower case.
pub open spec fn canonical_name(text: Seq<char>) -> Seq<char> {
    Seq::new(text.len(), |i: int| ascii_lower(text[i]))
}

/// The mathematical form of a list of configured headers.
pub open spec fn pairs_view(pairs: Seq<(String, String)>) -> Seq<(Seq<char>, Seq<char>)> {
    Seq::new(pairs.len(), |i: int| (pairs[i].0@, pairs[i].1@))
}

/// What is wrong with one configured header, if anything: the name is looked
/// at before the value.
pub open spec fn pair_fault(pair: (Seq<char>, Seq<char>)) -> Option<ConfigFault> {
    if !is_header_name(pair.0) {
        Some(ConfigFault::HeaderName(pair.0))
    } else if !is_header_value(pair.1) {
        Some(ConfigFault::HeaderValue(pair.1))
    } else {
        None
    }
}

/// The entries that a list of configured headers resolves to, or the fault of
/// the first header that has one. Headers are taken in order, each filed under
/// its canonical name in place of an earlier one of that name.
pub open spec fn resolve_headers(pairs: Seq<(Seq<char>, Seq<char>)>) -> Result<
    Map<Seq<char>, Seq<Seq<u8>>>,
    ConfigFault,
>
    decreases pairs.len(),
{
    if pairs.len() == 0 {
        Ok(Map::empty())
    } else {
        match resolve_headers(pairs.drop_last()) {
            Err(fault) => Err(fault),
            Ok(entries) => match pair_fault(pairs.last()) {
                Some(fault) => Err(fault),
                None => Ok(
                    entries.insert(
                        canonical_name(pairs.last().0),
                        seq![encode_utf8(pairs.last().1)],
                    ),
                ),
            },
        }
    }
}

/// A fault among the first `k` headers is the fault of the whole list.
pub proof fn lemma_fault_stays(pairs: Seq<(Seq<char>, Seq<char>)>, k: int)
    requires
        0 <= k <= pairs.len(),
        resolve_headers(pairs.take(k)) is Err,
    ensures
        resolve_headers(pairs) == resolve_headers(pairs.take(k)),
    decreases pairs.len(),
{
    if k == pairs.len() {
        assert(pairs.take(k) =~= pairs);
    } else {
        assert(pairs.drop_last().take(k) =~= pairs.take(k));
        lemma_fault_stays(pairs.drop_last(), k);
    }
}

/// Headers resolve exactly when none of them has a fault.
pub proof fn lemma_resolves_iff_faultless(pairs: Seq<(Seq<char>, Seq<char>)>)
    ensures
        resolve_headers(pairs) is Ok <==> forall|i: int|
            0 <= i < pairs.len() ==> pair_fault(#[trigger] pairs[i]) is None,
    decreases pairs.len(),
{
    if pairs.len() > 0 {
        let front = pairs.drop_last();
        lemma_resolves_iff_faultless(front);
        assert(forall|i: int| 0 <= i < front.len() ==> front[i] == pairs[i]);
        if resolve_headers(pairs) is Ok {
            assert forall|i: int| 0 <= i < pairs.len() implies pair_fault(
                #[trigger] pairs[i],
            ) is None by {
                if i < front.len() {
                    assert(front[i] == pairs[i]);
                }
            }
        }
    }
}

/// A list with a header whose name is not a legal header name does not
/// resolve.
pub proof fn lemma_bad_name_is_refused(pairs: Seq<(Seq<char>, Seq<char>)>, i: int)
    requires
        0 <= i < pairs.len(),
        !is_header_name(pairs[i].0),
    ensures
        resolve_headers(pairs) is Err,
{
    lemma_resolves_iff_faultless(pairs);
    assert(pair_fault(pairs[i]) is Some);
}

/// Resolved entries are finitely many, at most one for each header, and each
/// stands under the canonical name of some header and holds one value.
pub proof fn lemma_resolved_entries(pairs: Seq<(Seq<char>, Seq<char>)>)
    requires
        resolve_headers(pairs) is Ok,
    ensures
        resolve_headers(pairs)->Ok_0.dom().finite(),
        resolve_headers(pairs)->Ok_0.dom().len() <= pairs.len(),
        forall|name: Seq<char>| #[trigger]
            resolve_headers(pairs)->Ok_0.dom().contains(name) <==> exists|i: int|
                0 <= i < pairs.len() && canonical_name(#[trigger] pairs[i].0) == name,
    decreases pairs.len(),
{
    if pairs.len() > 0 {
        let front = pairs.drop_last();
        lemma_resolved_entries(front);
        let entries = resolve_headers(pairs)->Ok_0;
        assert forall|name: Seq<char>| #[trigger]
            entries.dom().contains(name) <==> exists|i: int|
                0 <= i < pairs.len() && canonical_name(#[trigger] pairs[i].0) == name by {
            if entries.dom().contains(name) {
                if name == canonical_name(pairs.last().0) {
                    assert(canonical_name(pairs[pairs.len() - 1].0) == name);
                } else {
                    let i = choose|i: int|
                        0 <= i < front.len() && canonical_name(#[trigger] front[i].0) == name;
                    assert(canonical_name(pairs[i].0) == name);
                }
            }
            if exists|i: int|
                0 <= i < pairs.len() && canonical_name(#[trigger] pairs[i].0) == name {
                let i = choose|i: int|
                    0 <= i < pairs.len() && canonical_name(#[trigger] pairs[i].0) == name;
                if i < front.len() {
                    assert(canonical_name(front[i].0) == name);
                }
            }
        }
    }
}

/// Under each name stands the value of the last header that has this
/// canonical name, and nothing else.
pub proof fn lemma_last_header_counts(pairs: Seq<(Seq<char>, Seq<char>)>, i: int)
    requires
        resolve_headers(pairs) is Ok,
        0 <= i < pairs.len(),
        forall|j: int|
            i < j < pairs.len() ==> canonical_name(#[trigger] pairs[j].0) != canonical_name(
                pairs[i].0,
            ),
    ensures
        resolve_headers(pairs)->Ok_0.dom().contains(canonical_name(pairs[i].0)),
        resolve_headers(pairs)->Ok_0[canonical_name(pairs[i].0)] == seq![encode_utf8(pairs[i].1)],
    decreases pairs.len(),
{
    let front = pairs.drop_last();
    if i < pairs.len() - 1 {
        assert(front[i] == pairs[i]);
        assert forall|j: int| i < j < front.len() implies canonical_name(#[trigger] front[j].0)
            != canonical_name(front[i].0) by {
            assert(front[j] == pairs[j]);
        }
        lemma_last_header_counts(front, i);
        assert(canonical_name(pairs[pairs.len() - 1].0) != canonical_name(pairs[i].0));
    }
}

/// Whether no two headers of a list share a canonical name.
pub open spec fn has_distinct_names(pairs: Seq<(Seq<char>, Seq<char>)>) -> bool {
    forall|i: int, j: int|
        0 <= i < j < pairs.len() ==> canonical_name(#[trigger] pairs[i].0) != canonical_name(
            #[trigger] pairs[j].0,
        )
}

/// Among the headers with a given canonical name there is a last one.
proof fn lemma_last_of_name(pairs: Seq<(Seq<char>, Seq<char>)>, name: Seq<char>) -> (last: int)
    requires
        exists|i: int| 0 <= i < pairs.len() && canonical_name(#[trigger] pairs[i].0) == name,
    ensures
        0 <= last < pairs.len(),
        canonical_name(pairs[last].0) == name,
        forall|j: int| last < j < pairs.len() ==> canonical_name(#[trigger] pairs[j].0) != name,
    decreases pairs.len(),
{
    if canonical_name(pairs.last().0) == name {
        pairs.len() - 1
    } else {
        let front = pairs.drop_last();
        let i = choose|i: int| 0 <= i < pairs.len() && canonical_name(#[trigger] pairs[i].0) == name;
        assert(canonical_name(front[i].0) == name);
        let last = lemma_last_of_name(front, name);
        assert(front[last] == pairs[last]);
        assert forall|j: int| last < j < pairs.len() implies canonical_name(#[trigger] pairs[j].0)
            != name by {
            if j < front.len() {
                assert(front[j] == pairs[j]);
            }
        }
        last
    }
}

/// The order of the headers is irrelevant as long as their names differ: two
/// lists that hold the same headers, the first without two of one canonical
/// name, resolve to the same entries, or both hold a faulty header.
pub proof fn lemma_order_is_irrelevant(
    a: Seq<(Seq<char>, Seq<char>)>,
    b: Seq<(Seq<char>, Seq<char>)>,
)
    requires
        has_distinct_names(a),
        forall|pair: (Seq<char>, Seq<char>)| a.contains(pair) <==> b.contains(pair),
    ensures
        resolve_headers(a) is Ok <==> resolve_headers(b) is Ok,
        resolve_headers(a) is Ok ==> resolve_headers(b) == resolve_headers(a),
{
    lemma_resolves_iff_faultless(a);
    lemma_resolves_iff_faultless(b);
    if resolve_headers(a) is Ok {
        assert forall|j: int| 0 <= j < b.len() implies pair_fault(#[trigger] b[j]) is None by {
            assert(b.contains(b[j]));
            let i = choose|i: int| 0 <= i < a.len() && a[i] == b[j];
            assert(pair_fault(a[i]) is None);
        }
    }
    if resolve_headers(b) is Ok {
        assert forall|i: int| 0 <= i < a.len() implies pair_fault(#[trigger] a[i]) is None by {
            assert(a.contains(a[i]));
            let j = choose|j: int| 0 <= j < b.len() && b[j] == a[i];
            assert(pair_fault(b[j]) is None);
        }
    }
    if resolve_headers(a) is Ok {
        let ea = resolve_headers(a)->Ok_0;
        let eb = resolve_headers(b)->Ok_0;
        lemma_resolved_entries(a);
        lemma_resolved_entries(b);
        assert forall|name: Seq<char>| #[trigger]
            ea.dom().contains(name) implies eb.dom().contains(name) && eb[name] == ea[name] by {
            let i = choose|i: int| 0 <= i < a.len() && canonical_name(#[trigger] a[i].0) == name;
            assert forall|k: int| i < k < a.len() implies canonical_name(#[trigger] a[k].0)
                != canonical_name(a[i].0) by {}
            lemma_last_header_counts(a, i);
            assert(a.contains(a[i]));
            let j0 = choose|j: int| 0 <= j < b.len() && b[j] == a[i];
            assert(canonical_name(b[j0].0) == name);
            let j = lemma_last_of_name(b, name);
            lemma_last_header_counts(b, j);
            assert(b.contains(b[j]));
            let i2 = choose|i2: int| 0 <= i2 < a.len() && a[i2] == b[j];
            assert(canonical_name(a[i2].0) == canonical_name(a[i].0));
            assert(i2 == i);
        }
        assert forall|name: Seq<char>| #[trigger]
            eb.dom().contains(name) implies ea.dom().contains(name) by {
            let j = choose|j: int| 0 <= j < b.len() && canonical_name(#[trigger] b[j].0) == name;
            assert(b.contains(b[j]));
            let i = choose|i: int| 0 <= i < a.len() && a[i] == b[j];
            assert(canonical_name(a[i].0) == name);
        }
        assert(ea.dom() =~= eb.dom());
        assert(ea =~= eb);
    }
}

/// What a built header map stands for: its entries, or the fault.
pub open spec fn built_view(built: Result<HeaderMap<HeaderValue>, InvalidConfig>) -> Result<
    Map<Seq<char>, Seq<Seq<u8>>>,
    ConfigFault,
> {
    match built {
        Ok(map) => Ok(header_map_entries(map)),
        Err(fault) => Err(fault@),
    }
}

/// Turns configured headers into a header map. The headers are taken in order
/// and the first one with an illegal name or value ends the work. Up to
/// `SURE_HEADER_ROOM` headers always fit; beyond that the map may refuse one.
pub fn build_headers(pairs: &Vec<(String, String)>) -> (built: Result<
    HeaderMap<HeaderValue>,
    InvalidConfig,
>)
    ensures
        pairs.len() <= SURE_HEADER_ROOM ==> built_view(built) == resolve_headers(pairs_view(pairs@)),
        built_view(built) != resolve_headers(pairs_view(pairs@)) ==> built == Err::<
            HeaderMap<HeaderValue>,
            InvalidConfig,
        >(InvalidConfig::TooManyHeaders),
{
    let ghost all = pairs_view(pairs@);
    let mut map = header_map_new();
    let mut i: usize = 0;
    while i < pairs.len()
        invariant
            i <= pairs.len(),
            all == pairs_view(pairs@),
            resolve_headers(all.take(i as int)) == Ok::<Map<Seq<char>, Seq<Seq<u8>>>, ConfigFault>(
                header_map_entries(map),
            ),
            header_map_entries(map).dom().finite(),
            header_map_entries(map).dom().len() <= i,
        decreases pairs.len() - i,
    {
        proof {
            assert(all.take(i + 1).drop_last() =~= all.take(i as int));
            assert(all.take(i + 1).last() == (pairs[i as int].0@, pairs[i as int].1@));
        }
        let name = match parse_header_name(pairs[i].0.as_str()) {
            Some(name) => name,
            None => {
                proof {
                    lemma_fault_stays(all, i + 1);
                }
                return Err(InvalidConfig::HeaderName(pairs[i].0.clone()));
            },
        };
        let value = match parse_header_value(pairs[i].1.as_str()) {
            Some(value) => value,
            None => {
                proof {
                    lemma_fault_stays(all, i + 1);
                }
                return Err(InvalidConfig::HeaderValue(pairs[i].1.clone()));
            },
        };
        if !header_map_try_insert(&mut map, name, value) {
            return Err(InvalidConfig::TooManyHeaders);
        }
        i += 1;
    }
    proof {
        assert(all.take(i as int) =~= all);
    }
    Ok(map)
}

} // verus!
