//! Response post-processing: DNS status interpretation, record-type
//! filtering with CNAME pass-through, and MX priority extraction and
//! sorting.
use vstd::prelude::*;
use crate::client::{AnswerData, DnsAnswer, DnsResponse, answers_view};
use crate::error::DnsError;
use crate::rtype::Rtype;
use crate::status::{RCode, rcode_of};
use vstd::multiset::Multiset;
use crate::text::{skip_ws, skip_ws_from, token_end, token_end_from, parse_u32, parse_u32_spec};


verus! {

/// Whether an answer is kept as part of a CNAME chain: address queries
/// (types A and AAAA) also surface CNAME answers.
pub open spec fn allow_cname_spec(a: AnswerData, code: u32) -> bool {
    (code == 1 || code == 28) && a.rtype == 5
}

/// Whether an answer is kept for a query: its type matches the requested
/// one, or the request is the wildcard ANY, or it is a CNAME under an
/// address query.
pub open spec fn keeps(a: AnswerData, code: u32) -> bool {
    a.rtype == code || code == 0 || allow_cname_spec(a, code)
}

/// Whether an answer is kept as part of a CNAME chain under this request.
pub fn allow_cname(answer: &DnsAnswer, request: &Rtype) -> (r: bool)
    ensures
        r == allow_cname_spec(answer@, request.0),
{
    if request.0 == 1 || request.0 == 28 {
        answer.rtype == 5
    } else {
        false
    }
}

/// The answers kept for a query, in received order.
pub open spec fn filter_spec(answers: Seq<AnswerData>, code: u32) -> Seq<AnswerData> {
    answers.filter(|a: AnswerData| keeps(a, code))
}

/// Law: the wildcard ANY passes every answer through, unfiltered, in
/// the original order.
pub proof fn lemma_any_passes_everything(answers: Seq<AnswerData>)
    ensures
        filter_spec(answers, 0) == answers,
    decreases answers.len(),
{
    reveal(Seq::filter);
    if answers.len() > 0 {
        lemma_any_passes_everything(answers.drop_last());
        assert(filter_spec(answers, 0) =~= answers);
    } else {
        assert(filter_spec(answers, 0) =~= answers);
    }
}

/// Law: an address query keeps exactly the answers of its own type and
/// the CNAME answers; no other query type surfaces a CNAME it did not
/// ask for.
pub proof fn lemma_cname_passthrough(a: AnswerData, code: u32)
    ensures
        keeps(a, 1) <==> (a.rtype == 1 || a.rtype == 5),
        keeps(a, 28) <==> (a.rtype == 28 || a.rtype == 5),
        code != 0 && code != 1 && code != 28 ==> (keeps(a, code) <==> a.rtype == code),
{
}

/// An answer equal in every field.
fn clone_answer(a: &DnsAnswer) -> (r: DnsAnswer)
    ensures
        r@ == a@,
{
    DnsAnswer { name: a.name.clone(), rtype: a.rtype, TTL: a.TTL, data: a.data.clone() }
}

/// Keeps the answers whose type matches the request, every answer under
/// ANY, and CNAME answers under address queries, in received order.
pub fn filter_answers(answers: &Vec<DnsAnswer>, request: &Rtype) -> (r: Vec<DnsAnswer>)
    ensures
        r.deep_view() == filter_spec(answers.deep_view(), request.0),
{
    let mut out: Vec<DnsAnswer> = Vec::new();
    let n = answers.len();
    let mut i: usize = 0;
    proof {
        reveal(Seq::filter);
        assert(answers.deep_view().take(0) =~= Seq::<AnswerData>::empty());
    }
    while i < n
        invariant
            n == answers@.len(),
            i <= n,
            answers.deep_view().len() == n,
            out.deep_view() == filter_spec(answers.deep_view().take(i as int), request.0),
        decreases n - i,
    {
        let a = &answers[i];
        proof {
            assert(a@ == answers.deep_view()[i as int]);
        }
        if a.rtype == request.0 || request.0 == 0 || allow_cname(a, request) {
            out.push(clone_answer(a));
        }
        proof {
            reveal(Seq::filter);
            let pre = answers.deep_view().take(i as int);
            let ext = answers.deep_view().take(i as int + 1);
            assert(ext.drop_last() =~= pre);
            assert(ext.last() == answers.deep_view()[i as int]);
            if keeps(answers.deep_view()[i as int], request.0) {
                assert(out.deep_view() =~= filter_spec(pre, request.0).push(
                    answers.deep_view()[i as int],
                ));
            }
        }
        i = i + 1;
    }
    proof {
        assert(answers.deep_view().take(n as int) =~= answers.deep_view());
    }
    out
}

/// Interprets a decoded response for a query: a non-`NoError` status is a
/// terminal protocol error that bypasses all filtering; on `NoError` the
/// answers are filtered for the request, in received order.
pub fn process_response(res: DnsResponse, request: &Rtype) -> (r: Result<Vec<DnsAnswer>, DnsError>)
    ensures
        rcode_of(res.Status) == RCode::NoError ==> (r matches Ok(v) && v.deep_view()
            == filter_spec(answers_view(res), request.0)),
        rcode_of(res.Status) != RCode::NoError ==> r == Err::<Vec<DnsAnswer>, DnsError>(
            DnsError::Status(rcode_of(res.Status)),
        ),
{
    let code = RCode::from_code(res.Status);
    match code {
        RCode::NoError => {
            let filtered = match &res.Answer {
                Some(v) => filter_answers(v, request),
                None => {
                    proof {
                        reveal(Seq::filter);
                        assert(answers_view(res) =~= Seq::<AnswerData>::empty());
                    }
                    Vec::new()
                },
            };
            Ok(filtered)
        },
        _ => Err(DnsError::Status(code)),
    }
}

/// The priority and exchange name an MX answer's data denotes: the first
/// whitespace-separated token parsed as a number, and the second token.
/// Data without a parsing first token or without a second token denotes
/// nothing.
pub open spec fn mx_parse(data: Seq<char>) -> Option<(u32, Seq<char>)> {
    let a = skip_ws_from(data, 0);
    let b = token_end_from(data, a);
    let c = skip_ws_from(data, b);
    let d = token_end_from(data, c);
    match parse_u32_spec(data.subrange(a, b)) {
        Some(p) => if c < d {
            Some((p, data.subrange(c, d)))
        } else {
            None
        },
        None => None,
    }
}

/// Splits an MX answer's data into its priority and its exchange name.
pub fn mx_parse_data(data: &str) -> (r: Option<(u32, String)>)
    ensures
        match mx_parse(data@) {
            Some(pn) => (r matches Some(x) && x.0 == pn.0 && x.1@ == pn.1),
            None => r is None,
        },
{
    let a = skip_ws(data, 0);
    let b = token_end(data, a);
    let c = skip_ws(data, b);
    let d = token_end(data, c);
    let tok = data.substring_char(a, b);
    match parse_u32(tok) {
        Some(p) => {
            if c < d {
                let name = String::from_str(data.substring_char(c, d));
                Some((p, name))
            } else {
                None
            }
        },
        None => None,
    }
}

/// One entry per MX answer whose data parses, in received order: the
/// parsed priority, and the answer with its data replaced by the bare
/// exchange name.  Answers of other types and answers whose data does
/// not parse are dropped.
pub open spec fn mx_entries(answers: Seq<AnswerData>) -> Seq<(u32, AnswerData)>
    decreases answers.len(),
{
    if answers.len() == 0 {
        Seq::empty()
    } else {
        let rest = mx_entries(answers.drop_last());
        let a = answers.last();
        if a.rtype == 15 {
            match mx_parse(a.data) {
                Some(pn) => rest.push(
                    (pn.0, AnswerData { name: a.name, rtype: a.rtype, ttl: a.ttl, data: pn.1 }),
                ),
                None => rest,
            }
        } else {
            rest
        }
    }
}

/// Extracts the MX entries of an answer list, in received order.
fn extract_mx(answers: &Vec<DnsAnswer>) -> (r: Vec<(u32, DnsAnswer)>)
    ensures
        r.deep_view() == mx_entries(answers.deep_view()),
{
    let mut out: Vec<(u32, DnsAnswer)> = Vec::new();
    let n = answers.len();
    let mut i: usize = 0;
    proof {
        assert(answers.deep_view().take(0) =~= Seq::<AnswerData>::empty());
        assert(out.deep_view() =~= mx_entries(answers.deep_view().take(0)));
    }
    while i < n
        invariant
            n == answers@.len(),
            i <= n,
            answers.deep_view().len() == n,
            out.deep_view() == mx_entries(answers.deep_view().take(i as int)),
        decreases n - i,
    {
        let a = &answers[i];
        proof {
            assert(a@ == answers.deep_view()[i as int]);
            assert(answers.deep_view().take(i as int + 1).drop_last() =~= answers.deep_view().take(
                i as int,
            ));
            assert(answers.deep_view().take(i as int + 1).last() == a@);
        }
        if a.rtype == 15 {
            match mx_parse_data(a.data.as_str()) {
                Some(pn) => {
                    let entry = (
                        pn.0,
                        DnsAnswer { name: a.name.clone(), rtype: a.rtype, TTL: a.TTL, data: pn.1 },
                    );
                    proof {
                        assert(entry.deep_view().1 == AnswerData {
                            name: a@.name,
                            rtype: a@.rtype,
                            ttl: a@.ttl,
                            data: mx_parse(a@.data).unwrap().1,
                        });
                    }
                    out.push(entry);
                    proof {
                        assert(out.deep_view() =~= mx_entries(
                            answers.deep_view().take(i as int + 1),
                        ));
                    }
                },
                None => {},
            }
        }
        i = i + 1;
    }
    proof {
        assert(answers.deep_view().take(n as int) =~= answers.deep_view());
    }
    out
}

/// Where an entry goes among already-placed entries: before the first
/// entry whose priority strictly exceeds its own, so that entries of
/// equal priority keep their relative order.
pub open spec fn insert_by_priority(x: (u32, AnswerData), s: Seq<(u32, AnswerData)>) -> Seq<
    (u32, AnswerData),
>
    decreases s.len(),
{
    if s.len() == 0 {
        seq![x]
    } else if x.0 < s[0].0 {
        seq![x] + s
    } else {
        seq![s[0]] + insert_by_priority(x, s.drop_first())
    }
}

/// The entries in ascending priority order — priority is the sole
/// ordering key — with ties keeping the relative order in which they
/// were encountered: a stable insertion sort.
pub open spec fn sort_by_priority(s: Seq<(u32, AnswerData)>) -> Seq<(u32, AnswerData)>
    decreases s.len(),
{
    if s.len() == 0 {
        s
    } else {
        insert_by_priority(s.last(), sort_by_priority(s.drop_last()))
    }
}

/// Whether entries are in ascending priority order.
pub open spec fn sorted_by_priority(s: Seq<(u32, AnswerData)>) -> bool {
    forall|i: int, j: int| 0 <= i <= j < s.len() ==> (#[trigger] s[i]).0 <= (#[trigger] s[j]).0
}

/// Inserting into a sorted sequence keeps it sorted, adds exactly the
/// inserted entry, and introduces no other entry.
proof fn lemma_insert_by_priority(x: (u32, AnswerData), s: Seq<(u32, AnswerData)>)
    requires
        sorted_by_priority(s),
    ensures
        sorted_by_priority(insert_by_priority(x, s)),
        insert_by_priority(x, s).to_multiset() =~= s.to_multiset().insert(x),
        insert_by_priority(x, s).len() == s.len() + 1,
        forall|k: int|
            0 <= k < insert_by_priority(x, s).len() ==> (#[trigger] insert_by_priority(x, s)[k]
                == x || s.contains(insert_by_priority(x, s)[k])),
    decreases s.len(),
{
    broadcast use vstd::seq_lib::group_to_multiset_ensures;

    let out = insert_by_priority(x, s);
    if s.len() == 0 {
        assert(out =~= Seq::empty().push(x));
        assert(out.to_multiset() =~= s.to_multiset().insert(x));
    } else if x.0 < s[0].0 {
        assert(out =~= seq![x] + s);
        vstd::seq_lib::lemma_multiset_commutative(seq![x], s);
        assert(seq![x].to_multiset() =~= Multiset::empty().insert(x));
        assert(out.to_multiset() =~= s.to_multiset().insert(x));
        assert forall|i: int, j: int| 0 <= i <= j < out.len() implies (#[trigger] out[i]).0
            <= (#[trigger] out[j]).0 by {
            if i == 0 && j > 0 {
                assert(s[0].0 <= s[j - 1].0);
            }
        }
    } else {
        let tail = s.drop_first();
        assert(forall|i: int, j: int|
            0 <= i <= j < tail.len() ==> (#[trigger] tail[i]).0 <= (#[trigger] tail[j]).0);
        lemma_insert_by_priority(x, tail);
        let rec = insert_by_priority(x, tail);
        assert(out =~= seq![s[0]] + rec);
        vstd::seq_lib::lemma_multiset_commutative(seq![s[0]], rec);
        assert(s =~= seq![s[0]] + tail);
        vstd::seq_lib::lemma_multiset_commutative(seq![s[0]], tail);
        assert(out.to_multiset() =~= s.to_multiset().insert(x));
        assert forall|i: int, j: int| 0 <= i <= j < out.len() implies (#[trigger] out[i]).0
            <= (#[trigger] out[j]).0 by {
            if i == 0 && j > 0 {
                let e = rec[j - 1];
                if e == x {
                    assert(s[0].0 <= x.0);
                } else {
                    assert(tail.contains(e));
                    let t = choose|t: int| 0 <= t < tail.len() && tail[t] == e;
                    assert(s[0].0 <= s[t + 1].0);
                }
            }
        }
        assert forall|k: int| 0 <= k < out.len() implies (#[trigger] out[k] == x || s.contains(
            out[k],
        )) by {
            if k == 0 {
                assert(s[0] == s[0]);
                assert(s.contains(s[0]));
            } else {
                let e = rec[k - 1];
                if e != x {
                    assert(tail.contains(e));
                    let t = choose|t: int| 0 <= t < tail.len() && tail[t] == e;
                    assert(s[t + 1] == e);
                    assert(s.contains(e));
                }
            }
        }
    }
}

/// Law: the MX sort orders entries ascending by priority alone.
pub proof fn lemma_mx_sort_sorted(s: Seq<(u32, AnswerData)>)
    ensures
        sorted_by_priority(sort_by_priority(s)),
    decreases s.len(),
{
    if s.len() > 0 {
        lemma_mx_sort_sorted(s.drop_last());
        lemma_insert_by_priority(s.last(), sort_by_priority(s.drop_last()));
    }
}

/// Law: the MX sort is a permutation — every entry appears in the result
/// exactly as often as it was extracted, nothing added, nothing lost.
pub proof fn lemma_mx_sort_permutes(s: Seq<(u32, AnswerData)>)
    ensures
        sort_by_priority(s).to_multiset() =~= s.to_multiset(),
        sort_by_priority(s).len() == s.len(),
    decreases s.len(),
{
    broadcast use vstd::seq_lib::group_to_multiset_ensures;

    if s.len() > 0 {
        lemma_mx_sort_permutes(s.drop_last());
        lemma_mx_sort_sorted(s.drop_last());
        lemma_insert_by_priority(s.last(), sort_by_priority(s.drop_last()));
        assert(s =~= s.drop_last().push(s.last()));
        assert(s.drop_last().push(s.last()).to_multiset() =~= s.drop_last().to_multiset().insert(
            s.last(),
        ));
    }
}

/// The entries of one priority, in received order.
pub open spec fn same_priority(s: Seq<(u32, AnswerData)>, p: u32) -> Seq<(u32, AnswerData)> {
    s.filter(|e: (u32, AnswerData)| e.0 == p)
}

/// A sequence without entries of a priority filters to nothing for it.
proof fn lemma_same_priority_empty(s: Seq<(u32, AnswerData)>, p: u32)
    requires
        forall|j: int| 0 <= j < s.len() ==> (#[trigger] s[j]).0 != p,
    ensures
        same_priority(s, p) == Seq::<(u32, AnswerData)>::empty(),
    decreases s.len(),
{
    reveal(Seq::filter);
    if s.len() > 0 {
        assert(forall|j: int|
            0 <= j < s.drop_last().len() ==> (#[trigger] s.drop_last()[j]).0 != p);
        lemma_same_priority_empty(s.drop_last(), p);
        assert(s.last().0 != p);
        assert(same_priority(s, p) =~= Seq::<(u32, AnswerData)>::empty());
    } else {
        assert(same_priority(s, p) =~= Seq::<(u32, AnswerData)>::empty());
    }
}

/// A single entry filtered by priority.
proof fn lemma_same_priority_one(x: (u32, AnswerData), p: u32)
    ensures
        same_priority(seq![x], p) == if x.0 == p {
            seq![x]
        } else {
            Seq::<(u32, AnswerData)>::empty()
        },
{
    reveal(Seq::filter);
    assert(seq![x].drop_last() =~= Seq::<(u32, AnswerData)>::empty());
    lemma_same_priority_empty(seq![x].drop_last(), p);
    if x.0 == p {
        assert(same_priority(seq![x], p) =~= seq![x]);
    } else {
        assert(same_priority(seq![x], p) =~= Seq::<(u32, AnswerData)>::empty());
    }
}

/// Inserting an entry after every entry whose priority does not exceed
/// its own appends it to the entries of its own priority and leaves the
/// entries of every other priority untouched.
proof fn lemma_insert_keeps_ties(x: (u32, AnswerData), s: Seq<(u32, AnswerData)>, p: u32)
    requires
        sorted_by_priority(s),
    ensures
        same_priority(insert_by_priority(x, s), p) == if x.0 == p {
            same_priority(s, p).push(x)
        } else {
            same_priority(s, p)
        },
    decreases s.len(),
{
    broadcast use Seq::filter_distributes_over_add;
    broadcast use Seq::push_distributes_over_add;

    lemma_same_priority_one(x, p);
    if s.len() == 0 {
        reveal(Seq::filter);
        assert(insert_by_priority(x, s) =~= seq![x]);
        assert(same_priority(s, p) =~= Seq::<(u32, AnswerData)>::empty());
        if x.0 == p {
            assert(same_priority(s, p).push(x) =~= seq![x]);
        }
    } else if x.0 < s[0].0 {
        assert(insert_by_priority(x, s) == seq![x] + s);
        assert(same_priority(seq![x] + s, p) == same_priority(seq![x], p) + same_priority(s, p));
        if x.0 == p {
            assert forall|j: int| 0 <= j < s.len() implies (#[trigger] s[j]).0 != p by {
                assert(s[0].0 <= s[j].0);
            }
            lemma_same_priority_empty(s, p);
            assert(seq![x] + same_priority(s, p) =~= same_priority(s, p).push(x));
        } else {
            assert(Seq::<(u32, AnswerData)>::empty() + same_priority(s, p) =~= same_priority(
                s,
                p,
            ));
        }
    } else {
        let tail = s.drop_first();
        assert(forall|i: int, j: int|
            0 <= i <= j < tail.len() ==> (#[trigger] tail[i]).0 <= (#[trigger] tail[j]).0);
        lemma_insert_keeps_ties(x, tail, p);
        lemma_same_priority_one(s[0], p);
        assert(insert_by_priority(x, s) == seq![s[0]] + insert_by_priority(x, tail));
        assert(s =~= seq![s[0]] + tail);
        assert(same_priority(s, p) == same_priority(seq![s[0]], p) + same_priority(tail, p));
        assert(same_priority(seq![s[0]] + insert_by_priority(x, tail), p) == same_priority(
            seq![s[0]],
            p,
        ) + same_priority(insert_by_priority(x, tail), p));
        if x.0 == p {
            assert(same_priority(seq![s[0]], p) + same_priority(tail, p).push(x) =~= (
            same_priority(seq![s[0]], p) + same_priority(tail, p)).push(x));
        }
    }
}

/// Law: the MX sort is stable.  For every priority, the entries holding
/// it appear in the sorted result exactly as they were encountered.
pub proof fn lemma_mx_sort_stable(s: Seq<(u32, AnswerData)>, p: u32)
    ensures
        same_priority(sort_by_priority(s), p) == same_priority(s, p),
    decreases s.len(),
{
    broadcast use Seq::filter_distributes_over_add;

    if s.len() > 0 {
        lemma_mx_sort_stable(s.drop_last(), p);
        lemma_mx_sort_sorted(s.drop_last());
        lemma_insert_keeps_ties(s.last(), sort_by_priority(s.drop_last()), p);
        lemma_same_priority_one(s.last(), p);
        assert(s =~= s.drop_last() + seq![s.last()]);
        assert(same_priority(s, p) == same_priority(s.drop_last(), p) + same_priority(
            seq![s.last()],
            p,
        ));
        if s.last().0 == p {
            assert(same_priority(s.drop_last(), p) + seq![s.last()] =~= same_priority(
                s.drop_last(),
                p,
            ).push(s.last()));
        } else {
            assert(same_priority(s.drop_last(), p) + Seq::<(u32, AnswerData)>::empty()
                =~= same_priority(s.drop_last(), p));
        }
    }
}

/// Where the scan in the sorting loop stops, the insertion splits the
/// sequence there.
proof fn lemma_insert_position(x: (u32, AnswerData), s: Seq<(u32, AnswerData)>, pos: int)
    requires
        0 <= pos <= s.len(),
        forall|j: int| 0 <= j < pos ==> (#[trigger] s[j]).0 <= x.0,
        pos < s.len() ==> s[pos].0 > x.0,
    ensures
        insert_by_priority(x, s) =~= s.subrange(0, pos) + seq![x] + s.subrange(
            pos,
            s.len() as int,
        ),
    decreases pos,
{
    if pos == 0 {
        if s.len() == 0 {
            assert(insert_by_priority(x, s) =~= seq![x]);
        } else {
            assert(x.0 < s[0].0);
        }
        assert(s.subrange(0, 0) =~= Seq::empty());
        assert(s.subrange(0, s.len() as int) =~= s);
    } else {
        assert(s[0].0 <= x.0);
        let tail = s.drop_first();
        assert(forall|j: int| 0 <= j < pos - 1 ==> (#[trigger] tail[j]).0 <= x.0);
        lemma_insert_position(x, tail, pos - 1);
        assert(tail.subrange(0, pos - 1) =~= s.subrange(1, pos));
        assert(tail.subrange(pos - 1, tail.len() as int) =~= s.subrange(pos, s.len() as int));
    }
}

/// Sorts MX entries ascending by priority, stably.
fn sort_mx(entries: &Vec<(u32, DnsAnswer)>) -> (r: Vec<(u32, DnsAnswer)>)
    ensures
        r.deep_view() == sort_by_priority(entries.deep_view()),
{
    let mut out: Vec<(u32, DnsAnswer)> = Vec::new();
    let n = entries.len();
    let mut i: usize = 0;
    proof {
        assert(entries.deep_view().take(0) =~= Seq::<(u32, AnswerData)>::empty());
        assert(out.deep_view() =~= sort_by_priority(entries.deep_view().take(0)));
    }
    while i < n
        invariant
            n == entries@.len(),
            i <= n,
            entries.deep_view().len() == n,
            out.deep_view() == sort_by_priority(entries.deep_view().take(i as int)),
            out@.len() == i,
        decreases n - i,
    {
        let e = &entries[i];
        let x = (e.0, clone_answer(&e.1));
        proof {
            assert(x.deep_view() == entries.deep_view()[i as int]);
        }
        let mut pos: usize = 0;
        while pos < out.len() && out[pos].0 <= x.0
            invariant
                pos <= out@.len(),
                forall|j: int| 0 <= j < pos ==> (#[trigger] out.deep_view()[j]).0 <= x.deep_view().0,
            decreases out@.len() - pos,
        {
            pos = pos + 1;
        }
        proof {
            assert(pos < out@.len() ==> out.deep_view()[pos as int].0 > x.deep_view().0);
            lemma_insert_position(x.deep_view(), out.deep_view(), pos as int);
        }
        let ghost prev = out.deep_view();
        out.insert(pos, x);
        proof {
            assert(out.deep_view() =~= prev.subrange(0, pos as int) + seq![x.deep_view()]
                + prev.subrange(pos as int, prev.len() as int));
            assert(entries.deep_view().take(i as int + 1).drop_last() =~= entries.deep_view().take(
                i as int,
            ));
            assert(entries.deep_view().take(i as int + 1).last() == x.deep_view());
            assert(out.deep_view() =~= sort_by_priority(entries.deep_view().take(i as int + 1)));
        }
        i = i + 1;
    }
    proof {
        assert(entries.deep_view().take(n as int) =~= entries.deep_view());
    }
    out
}

/// The answers of a list of MX entries, priorities dropped.
pub open spec fn strip_priority(s: Seq<(u32, AnswerData)>) -> Seq<AnswerData> {
    s.map_values(|e: (u32, AnswerData)| e.1)
}

/// The MX answers of a `NoError` response, priorities stripped from the
/// data, ascending by priority, ties in received order.
pub open spec fn mx_sorted_spec(answers: Seq<AnswerData>) -> Seq<AnswerData> {
    strip_priority(sort_by_priority(mx_entries(answers)))
}

/// Interprets a decoded response for the MX query: a non-`NoError`
/// status is a terminal protocol error; on `NoError` the MX answers
/// whose data parses are returned with the priority stripped from the
/// data, ascending by priority, ties in received order.
pub fn process_mx_response(res: DnsResponse) -> (r: Result<Vec<DnsAnswer>, DnsError>)
    ensures
        rcode_of(res.Status) == RCode::NoError ==> (r matches Ok(v) && v.deep_view()
            == mx_sorted_spec(answers_view(res))),
        rcode_of(res.Status) != RCode::NoError ==> r == Err::<Vec<DnsAnswer>, DnsError>(
            DnsError::Status(rcode_of(res.Status)),
        ),
{
    let code = RCode::from_code(res.Status);
    match code {
        RCode::NoError => {
            let entries = match &res.Answer {
                Some(v) => extract_mx(v),
                None => {
                    proof {
                        assert(answers_view(res) =~= Seq::<AnswerData>::empty());
                    }
                    Vec::new()
                },
            };
            let sorted = sort_mx(&entries);
            let mut out: Vec<DnsAnswer> = Vec::new();
            let n = sorted.len();
            let mut k: usize = 0;
            proof {
                assert(out.deep_view() =~= strip_priority(sorted.deep_view().take(0)));
            }
            while k < n
                invariant
                    n == sorted@.len(),
                    k <= n,
                    sorted.deep_view().len() == n,
                    out@.len() == k,
                    out.deep_view() == strip_priority(sorted.deep_view().take(k as int)),
                decreases n - k,
            {
                let e = &sorted[k];
                proof {
                    assert(e.deep_view() == sorted.deep_view()[k as int]);
                }
                let cloned = clone_answer(&e.1);
                proof {
                    assert(cloned@ == sorted.deep_view()[k as int].1);
                }
                out.push(cloned);
                proof {
                    let dv = sorted.deep_view();
                    assert(out@.len() == k + 1);
                    assert(out.deep_view().len() == k + 1);
                    assert(out.deep_view()[k as int] == dv[k as int].1);
                    assert(strip_priority(dv.take(k as int + 1)).len() == k + 1);
                    assert(dv.take(k as int + 1)[k as int] == dv[k as int]);
                    assert(strip_priority(dv.take(k as int + 1))[k as int] == dv[k as int].1);
                    assert forall|j: int| 0 <= j < k as int implies out.deep_view()[j]
                        == strip_priority(dv.take(k as int + 1))[j] by {
                        assert(out.deep_view()[j] == strip_priority(dv.take(k as int))[j]);
                        assert(strip_priority(dv.take(k as int))[j] == dv.take(k as int)[j].1);
                        assert(dv.take(k as int)[j] == dv[j]);
                        assert(dv.take(k as int + 1)[j] == dv[j]);
                        assert(strip_priority(dv.take(k as int + 1))[j] == dv.take(
                            k as int + 1,
                        )[j].1);
                    }
                    assert(out.deep_view() =~= strip_priority(dv.take(k as int + 1)));
                }
                k = k + 1;
            }
            proof {
                assert(sorted.deep_view().take(n as int) =~= sorted.deep_view());
            }
            Ok(out)
        },
        _ => Err(DnsError::Status(code)),
    }
}

/// Every extracted MX entry is an MX record: its answer keeps type
/// fifteen.
pub proof fn lemma_mx_entries_rtype(answers: Seq<AnswerData>)
    ensures
        forall|k: int|
            0 <= k < mx_entries(answers).len() ==> (#[trigger] mx_entries(answers)[k]).1.rtype
                == 15,
    decreases answers.len(),
{
    if answers.len() > 0 {
        lemma_mx_entries_rtype(answers.drop_last());
        let rest = mx_entries(answers.drop_last());
        let out = mx_entries(answers);
        assert forall|k: int| 0 <= k < out.len() implies (#[trigger] out[k]).1.rtype == 15 by {
            if k < rest.len() {
                assert(out[k] == rest[k]);
            }
        }
    }
}

/// Law: everything the MX pipeline returns is an MX record — sorting
/// permutes the extracted entries and stripping only drops the priority.
pub proof fn lemma_mx_sorted_rtype(answers: Seq<AnswerData>)
    ensures
        forall|k: int|
            0 <= k < mx_sorted_spec(answers).len() ==> (#[trigger] mx_sorted_spec(answers)[k]).rtype
                == 15,
{
    broadcast use vstd::seq_lib::group_to_multiset_ensures;

    lemma_mx_entries_rtype(answers);
    let entries = mx_entries(answers);
    let sorted = sort_by_priority(entries);
    lemma_mx_sort_permutes(entries);
    assert forall|k: int| 0 <= k < mx_sorted_spec(answers).len() implies (
    #[trigger] mx_sorted_spec(answers)[k]).rtype == 15 by {
        let e = sorted[k];
        assert(sorted.contains(e));
        assert(sorted.to_multiset().count(e) > 0);
        assert(entries.to_multiset().count(e) > 0);
        assert(entries.contains(e));
        let j = choose|j: int| 0 <= j < entries.len() && entries[j] == e;
        assert(entries[j].1.rtype == 15);
        assert(mx_sorted_spec(answers)[k] == e.1);
    }
}

} // verus!
