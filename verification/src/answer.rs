//! Answer processing: filtering decoded answers by requested record type, and
//! MX-specific priority extraction and stable sorting.
use crate::{AnswerModel, DnsAnswer};
use vstd::prelude::*;
use vstd::string::StrSliceExecFns;

verus! {

/// The models of a sequence of answers, in order.
pub open spec fn models(s: Seq<DnsAnswer>) -> Seq<AnswerModel> {
    s.map_values(|a: DnsAnswer| a@)
}

/// Whether an answer is retained for a query of the given type code: its own
/// type must match, unless the query is for `ANY` (code 0).
pub open spec fn keeps_rtype(m: AnswerModel, code: u32) -> bool {
    m.rtype == code || code == 0
}

/// A field-by-field copy of an answer; its model is the model of the
/// original.
pub fn clone_answer(a: &DnsAnswer) -> (r: DnsAnswer)
    ensures
        r@ == a@,
{
    DnsAnswer {
        name: a.name.clone(),
        rtype: a.rtype,
        ttl: a.ttl,
        data: a.data.clone(),
    }
}

/// Retains exactly the answers whose type matches the requested code (all of
/// them when the requested code is `ANY`, 0), in their original order and
/// otherwise unmodified.
pub fn filter_by_rtype(answers: &Vec<DnsAnswer>, code: u32) -> (r: Vec<DnsAnswer>)
    ensures
        models(r@) == models(answers@).filter(|m: AnswerModel| keeps_rtype(m, code)),
{
    let ghost pred = |m: AnswerModel| keeps_rtype(m, code);
    let mut out: Vec<DnsAnswer> = Vec::new();
    let n = answers.len();
    #[verifier::loop_isolation(false)]
    for i in 0..n
        invariant
            n == answers@.len(),
            models(out@) =~= models(answers@.take(i as int)).filter(pred),
    {
        reveal_with_fuel(Seq::<AnswerModel>::filter, 1);
        let a = &answers[i];
        let ghost prev = out@;
        if a.rtype == code || code == 0 {
            out.push(clone_answer(a));
            proof {
                assert(models(out@) =~= models(prev).push(a@));
            }
        }
        proof {
            assert(models(answers@.take(i + 1)).drop_last() =~= models(
                answers@.take(i as int),
            ));
            assert(models(answers@.take(i + 1)).last() == answers@[i as int]@);
        }
    }
    proof {
        assert(answers@.take(n as int) =~= answers@);
    }
    out
}

/// The ASCII whitespace characters MX record data is split on.
pub open spec fn is_ascii_ws(c: char) -> bool {
    c == ' ' || c == '\t' || c == '\n' || c == '\u{000C}' || c == '\r'
}

/// The position of the first non-whitespace character at or after `i`, or the
/// end of the sequence.
pub open spec fn skip_ws(s: Seq<char>, i: int) -> int
    decreases s.len() - i,
{
    if i < 0 || i >= s.len() {
        s.len() as int
    } else if is_ascii_ws(s[i]) {
        skip_ws(s, i + 1)
    } else {
        i
    }
}

/// The position of the first whitespace character at or after `i`, or the end
/// of the sequence.
pub open spec fn scan_token(s: Seq<char>, i: int) -> int
    decreases s.len() - i,
{
    if i < 0 || i >= s.len() {
        s.len() as int
    } else if is_ascii_ws(s[i]) {
        i
    } else {
        scan_token(s, i + 1)
    }
}

/// Whether `c` is an ASCII decimal digit.
pub open spec fn is_digit(c: char) -> bool {
    48 <= c as int && c as int <= 57
}

/// The numeric value of an ASCII decimal digit.
pub open spec fn digit_val(c: char) -> int {
    c as int - 48
}

/// Whether every character of the sequence is an ASCII decimal digit.
pub open spec fn all_digits(t: Seq<char>) -> bool {
    forall|i: int| 0 <= i < t.len() ==> is_digit(#[trigger] t[i])
}

/// The value of a sequence of ASCII decimal digits, read in base 10.
pub open spec fn digits_val(t: Seq<char>) -> int
    decreases t.len(),
{
    if t.len() == 0 {
        0
    } else {
        digits_val(t.drop_last()) * 10 + digit_val(t.last())
    }
}

/// What `str::parse::<u32>` accepts: an optional leading `+`, then one or
/// more ASCII decimal digits whose value fits in 32 bits; and the value it
/// then returns.
pub open spec fn spec_parse_u32(t: Seq<char>) -> Option<u32> {
    let digits = if t.len() > 0 && t[0] == '+' {
        t.skip(1)
    } else {
        t
    };
    if digits.len() > 0 && all_digits(digits) && digits_val(digits) <= 0xFFFF_FFFF {
        Some(digits_val(digits) as u32)
    } else {
        None
    }
}

/// The model `m` with its data replaced by `d`.
pub open spec fn with_data(m: AnswerModel, d: Seq<char>) -> AnswerModel {
    AnswerModel { name: m.name, rtype: m.rtype, ttl: m.ttl, data: d }
}

/// MX priority extraction from record data: the first whitespace-delimited
/// token must parse as a `u32` and a second token must exist; the result is
/// that priority and the text from the second token onward.
pub open spec fn spec_mx_priority(s: Seq<char>) -> Option<(u32, Seq<char>)> {
    let a = skip_ws(s, 0);
    let b = scan_token(s, a);
    let c = skip_ws(s, b);
    let d = scan_token(s, c);
    if a < b && c < d {
        match spec_parse_u32(s.subrange(a, b)) {
            Some(p) => Some((p, s.subrange(c, s.len() as int))),
            None => None,
        }
    } else {
        None
    }
}

/// The surviving pair for one answer of an MX query: the answer must be an MX
/// record (type 15) whose data yields a priority and a target.
pub open spec fn spec_mx_pair(m: AnswerModel) -> Option<(u32, AnswerModel)> {
    if m.rtype == 15 {
        match spec_mx_priority(m.data) {
            Some(q) => Some((q.0, with_data(m, q.1))),
            None => None,
        }
    } else {
        None
    }
}

/// The surviving pairs of a sequence of answers, in decoded order.
pub open spec fn spec_mx_pairs(s: Seq<AnswerModel>) -> Seq<(u32, AnswerModel)>
    decreases s.len(),
{
    if s.len() == 0 {
        Seq::empty()
    } else {
        let rest = spec_mx_pairs(s.drop_last());
        match spec_mx_pair(s.last()) {
            Some(q) => rest.push(q),
            None => rest,
        }
    }
}

/// The models of a sequence of priority-answer pairs.
pub open spec fn pair_models(s: Seq<(u32, DnsAnswer)>) -> Seq<(u32, AnswerModel)> {
    s.map_values(|p: (u32, DnsAnswer)| (p.0, p.1@))
}

/// Insertion of a pair into a sequence, after every pair whose priority is
/// less than or equal to its own.
pub open spec fn spec_insert_pair(
    t: Seq<(u32, AnswerModel)>,
    x: (u32, AnswerModel),
) -> Seq<(u32, AnswerModel)>
    decreases t.len(),
{
    if t.len() > 0 && t[0].0 <= x.0 {
        seq![t[0]] + spec_insert_pair(t.drop_first(), x)
    } else {
        seq![x] + t
    }
}

/// Insertion sort of the pairs by priority: processing the input left to
/// right, each pair is placed after every already-placed pair whose priority
/// is less than or equal to its own, which keeps the sort stable.
pub open spec fn spec_sort_pairs(s: Seq<(u32, AnswerModel)>) -> Seq<(u32, AnswerModel)>
    decreases s.len(),
{
    if s.len() == 0 {
        Seq::empty()
    } else {
        spec_insert_pair(spec_sort_pairs(s.drop_last()), s.last())
    }
}

/// Whether the pairs are in ascending order of priority.
pub open spec fn sorted_by_priority(s: Seq<(u32, AnswerModel)>) -> bool {
    forall|i: int, j: int| 0 <= i < j < s.len() ==> s[i].0 <= s[j].0
}

/// The subsequence of pairs carrying the given priority, in order.
pub open spec fn with_priority(s: Seq<(u32, AnswerModel)>, p: u32) -> Seq<(u32, AnswerModel)>
    decreases s.len(),
{
    if s.len() == 0 {
        Seq::empty()
    } else if s.last().0 == p {
        with_priority(s.drop_last(), p).push(s.last())
    } else {
        with_priority(s.drop_last(), p)
    }
}

/// The answers of a sequence of pairs, with the priorities dropped.
pub open spec fn strip_priorities(s: Seq<(u32, AnswerModel)>) -> Seq<AnswerModel> {
    s.map_values(|q: (u32, AnswerModel)| q.1)
}

/// The whole MX pipeline: keep the MX records whose data yields a priority
/// and a target, stable-sort them by ascending priority, and emit the answers
/// with the priority stripped from the data.
pub open spec fn spec_mx_process(s: Seq<AnswerModel>) -> Seq<AnswerModel> {
    strip_priorities(spec_sort_pairs(spec_mx_pairs(s)))
}

/// The value of a digit sequence is at least the value of any of its
/// prefixes.
proof fn lemma_digits_val_prefix(t: Seq<char>, m: int)
    requires
        0 <= m <= t.len(),
        all_digits(t),
    ensures
        digits_val(t.take(m)) <= digits_val(t),
        digits_val(t) >= 0,
    decreases t.len() - m,
{
    if m == t.len() {
        assert(t.take(m) =~= t);
        lemma_digits_val_nonneg(t);
    } else {
        lemma_digits_val_prefix(t.drop_last(), m);
        assert(t.drop_last().take(m) =~= t.take(m));
        lemma_digits_val_nonneg(t.drop_last());
    }
}

/// The value of a digit sequence is nonnegative.
proof fn lemma_digits_val_nonneg(t: Seq<char>)
    requires
        all_digits(t),
    ensures
        digits_val(t) >= 0,
    decreases t.len(),
{
    if t.len() > 0 {
        lemma_digits_val_nonneg(t.drop_last());
    }
}

/// Inserting a pair at position `j`, where every pair before `j` has a
/// priority less than or equal to the new pair's and the pair at `j` (if any)
/// has a greater one, splits the sequence at `j`.
proof fn lemma_insert_at(t: Seq<(u32, AnswerModel)>, x: (u32, AnswerModel), j: int)
    requires
        0 <= j <= t.len(),
        forall|k: int| 0 <= k < j ==> (#[trigger] t[k]).0 <= x.0,
        j < t.len() ==> t[j].0 > x.0,
    ensures
        spec_insert_pair(t, x) == t.subrange(0, j) + seq![x] + t.subrange(j, t.len() as int),
    decreases j,
{
    if j == 0 {
        assert(spec_insert_pair(t, x) =~= t.subrange(0, 0) + seq![x] + t.subrange(0, t.len() as int));
    } else {
        lemma_insert_at(t.drop_first(), x, j - 1);
        assert(spec_insert_pair(t, x) =~= t.subrange(0, j) + seq![x] + t.subrange(j, t.len() as int));
    }
}

/// Inserting into a sequence sorted by priority keeps it sorted, and adds no
/// pair but the inserted one.
proof fn lemma_insert_pair_sorted(t: Seq<(u32, AnswerModel)>, x: (u32, AnswerModel))
    requires
        sorted_by_priority(t),
    ensures
        sorted_by_priority(spec_insert_pair(t, x)),
        forall|k: int|
            0 <= k < spec_insert_pair(t, x).len() ==> ((#[trigger] spec_insert_pair(t, x)[k]) == x
                || t.contains(spec_insert_pair(t, x)[k])),
    decreases t.len(),
{
    let r = spec_insert_pair(t, x);
    if t.len() > 0 && t[0].0 <= x.0 {
        let rest = t.drop_first();
        assert(forall|i: int| 0 <= i < rest.len() ==> #[trigger] rest[i] == t[i + 1]);
        lemma_insert_pair_sorted(rest, x);
        let rr = spec_insert_pair(rest, x);
        assert(r =~= seq![t[0]] + rr);
        assert forall|i: int| 0 <= i < rr.len() implies t[0].0 <= (#[trigger] rr[i]).0 by {
            if rr[i] == x {
            } else {
                assert(rest.contains(rr[i]));
                let m = choose|m: int| 0 <= m < rest.len() && rest[m] == rr[i];
                assert(t[m + 1] == rr[i]);
            }
        }
        assert forall|k: int| 0 <= k < r.len() implies ((#[trigger] r[k]) == x || t.contains(
            r[k],
        )) by {
            if k == 0 {
                assert(r[0] == t[0]);
                assert(t.contains(t[0]));
            } else {
                assert(r[k] == rr[k - 1]);
                if rr[k - 1] == x {
                } else {
                    assert(rest.contains(rr[k - 1]));
                    let m = choose|m: int| 0 <= m < rest.len() && rest[m] == rr[k - 1];
                    assert(t[m + 1] == r[k]);
                    assert(t.contains(t[m + 1]));
                }
            }
        }
    } else {
        assert(r =~= seq![x] + t);
        assert forall|k: int| 0 <= k < r.len() implies ((#[trigger] r[k]) == x || t.contains(
            r[k],
        )) by {
            if k > 0 {
                assert(r[k] == t[k - 1]);
                assert(t.contains(t[k - 1]));
            }
        }
    }
}

/// The pairs emitted by the MX sort are in ascending order of priority.
pub proof fn lemma_sort_pairs_sorted(s: Seq<(u32, AnswerModel)>)
    ensures
        sorted_by_priority(spec_sort_pairs(s)),
    decreases s.len(),
{
    if s.len() > 0 {
        lemma_sort_pairs_sorted(s.drop_last());
        lemma_insert_pair_sorted(spec_sort_pairs(s.drop_last()), s.last());
    }
}

/// The subsequence of a given priority distributes over concatenation.
proof fn lemma_with_priority_add(a: Seq<(u32, AnswerModel)>, b: Seq<(u32, AnswerModel)>, p: u32)
    ensures
        with_priority(a + b, p) == with_priority(a, p) + with_priority(b, p),
    decreases b.len(),
{
    if b.len() == 0 {
        assert(a + b =~= a);
        assert(with_priority(a, p) + with_priority(b, p) =~= with_priority(a, p));
    } else {
        lemma_with_priority_add(a, b.drop_last(), p);
        assert((a + b).drop_last() =~= a + b.drop_last());
        assert((a + b).last() == b.last());
        if b.last().0 == p {
            assert(with_priority(a, p) + with_priority(b, p) =~= (with_priority(a, p)
                + with_priority(b.drop_last(), p)).push(b.last()));
        }
    }
}

/// A sequence whose priorities are all above `p` contributes nothing to the
/// subsequence of priority `p`.
proof fn lemma_with_priority_none(t: Seq<(u32, AnswerModel)>, p: u32)
    requires
        forall|k: int| 0 <= k < t.len() ==> (#[trigger] t[k]).0 != p,
    ensures
        with_priority(t, p) == Seq::<(u32, AnswerModel)>::empty(),
    decreases t.len(),
{
    if t.len() > 0 {
        lemma_with_priority_none(t.drop_last(), p);
    }
}

/// Inserting a pair into a sequence sorted by priority appends it to the
/// subsequence of its own priority and leaves every other priority's
/// subsequence unchanged.
proof fn lemma_insert_pair_with_priority(
    t: Seq<(u32, AnswerModel)>,
    x: (u32, AnswerModel),
    p: u32,
)
    requires
        sorted_by_priority(t),
    ensures
        with_priority(spec_insert_pair(t, x), p) == (if x.0 == p {
            with_priority(t, p).push(x)
        } else {
            with_priority(t, p)
        }),
    decreases t.len(),
{
    let r = spec_insert_pair(t, x);
    let single = seq![x];
    assert(with_priority(single, p) =~= (if x.0 == p {
        Seq::<(u32, AnswerModel)>::empty().push(x)
    } else {
        Seq::<(u32, AnswerModel)>::empty()
    })) by {
        assert(single.drop_last() =~= Seq::<(u32, AnswerModel)>::empty());
        assert(with_priority(Seq::<(u32, AnswerModel)>::empty(), p) =~= Seq::<(
            u32,
            AnswerModel,
        )>::empty());
        assert(single.last() == x);
    }
    if t.len() > 0 && t[0].0 <= x.0 {
        let rest = t.drop_first();
        assert(forall|i: int| 0 <= i < rest.len() ==> #[trigger] rest[i] == t[i + 1]);
        lemma_insert_pair_with_priority(rest, x, p);
        let head = seq![t[0]];
        assert(r == head + spec_insert_pair(rest, x));
        lemma_with_priority_add(head, spec_insert_pair(rest, x), p);
        lemma_with_priority_add(head, rest, p);
        assert(t =~= head + rest);
        assert(with_priority(head, p) =~= (if t[0].0 == p {
            Seq::<(u32, AnswerModel)>::empty().push(t[0])
        } else {
            Seq::<(u32, AnswerModel)>::empty()
        })) by {
            assert(head.drop_last() =~= Seq::<(u32, AnswerModel)>::empty());
            assert(with_priority(Seq::<(u32, AnswerModel)>::empty(), p) =~= Seq::<(
                u32,
                AnswerModel,
            )>::empty());
            assert(head.last() == t[0]);
        }
        if x.0 == p {
            assert(with_priority(r, p) =~= with_priority(t, p).push(x));
        } else {
            assert(with_priority(r, p) =~= with_priority(t, p));
        }
    } else {
        assert(r == single + t);
        lemma_with_priority_add(single, t, p);
        if x.0 == p {
            assert forall|k: int| 0 <= k < t.len() implies (#[trigger] t[k]).0 != p by {
                assert(t[k].0 >= t[0].0);
            }
            lemma_with_priority_none(t, p);
            assert(with_priority(r, p) =~= with_priority(t, p).push(x));
        } else {
            assert(with_priority(r, p) =~= with_priority(t, p));
        }
    }
}

/// The MX sort is stable: for each priority, the pairs carrying it appear in
/// the output in their original relative order.
pub proof fn lemma_sort_pairs_stable(s: Seq<(u32, AnswerModel)>, p: u32)
    ensures
        with_priority(spec_sort_pairs(s), p) == with_priority(s, p),
    decreases s.len(),
{
    if s.len() > 0 {
        lemma_sort_pairs_stable(s.drop_last(), p);
        lemma_sort_pairs_sorted(s.drop_last());
        lemma_insert_pair_with_priority(spec_sort_pairs(s.drop_last()), s.last(), p);
    }
}

/// The two ordering guarantees of the MX pipeline, for any decoded answers
/// `s` and any priority `p`: the surviving pairs are emitted in ascending
/// order of priority, and the pairs carrying `p` keep their original
/// relative order.
pub proof fn lemma_mx_pipeline_order(s: Seq<AnswerModel>, p: u32)
    ensures
        sorted_by_priority(spec_sort_pairs(spec_mx_pairs(s))),
        with_priority(spec_sort_pairs(spec_mx_pairs(s)), p) == with_priority(spec_mx_pairs(s), p),
{
    lemma_sort_pairs_sorted(spec_mx_pairs(s));
    lemma_sort_pairs_stable(spec_mx_pairs(s), p);
}

/// Whether `c` is one of the ASCII whitespace characters record data is
/// split on.
fn is_ws_char(c: char) -> (r: bool)
    ensures
        r == is_ascii_ws(c),
{
    c == ' ' || c == '\t' || c == '\n' || c == '\u{000C}' || c == '\r'
}

/// Advances from `from` past whitespace.
fn skip_ws_exec(s: &str, from: usize, len: usize) -> (r: usize)
    requires
        len == s@.len(),
        from <= len,
    ensures
        r == skip_ws(s@, from as int),
        from <= r <= len,
{
    let mut j = from;
    while j < len && is_ws_char(s.get_char(j))
        invariant
            from <= j <= len,
            len == s@.len(),
            skip_ws(s@, from as int) == skip_ws(s@, j as int),
        decreases len - j,
    {
        j += 1;
    }
    j
}

/// Advances from `from` past non-whitespace.
fn scan_token_exec(s: &str, from: usize, len: usize) -> (r: usize)
    requires
        len == s@.len(),
        from <= len,
    ensures
        r == scan_token(s@, from as int),
        from <= r <= len,
{
    let mut j = from;
    while j < len && !is_ws_char(s.get_char(j))
        invariant
            from <= j <= len,
            len == s@.len(),
            scan_token(s@, from as int) == scan_token(s@, j as int),
        decreases len - j,
    {
        j += 1;
    }
    j
}

/// Parses an unsigned 32-bit integer the way `str::parse::<u32>` does: an
/// optional leading `+`, then one or more decimal digits, failing on
/// overflow.
pub fn parse_u32_str(t: &str) -> (r: Option<u32>)
    ensures
        r == spec_parse_u32(t@),
{
    let len = t.unicode_len();
    let start: usize = if len > 0 && t.get_char(0) == '+' {
        1
    } else {
        0
    };
    let ghost digits = if t@.len() > 0 && t@[0] == '+' {
        t@.skip(1)
    } else {
        t@
    };
    proof {
        assert(digits =~= t@.subrange(start as int, len as int));
    }
    if start >= len {
        assert(digits.len() == 0);
        return None;
    }
    let mut acc: u64 = 0;
    let mut k = start;
    #[verifier::loop_isolation(false)]
    while k < len
        invariant
            start < len <= usize::MAX,
            start <= k <= len,
            len == t@.len(),
            digits == t@.subrange(start as int, len as int),
            acc == digits_val(t@.subrange(start as int, k as int)),
            acc <= 0xFFFF_FFFFu64,
            all_digits(t@.subrange(start as int, k as int)),
        decreases len - k,
    {
        let c = t.get_char(k);
        let cv = c as u32;
        if cv < 48 || cv > 57 {
            proof {
                assert(c as int == cv as int);
                assert(digits.len() == len - start);
                assert(digits[k - start] == t@[k as int]);
                assert(!is_digit(digits[k - start]));
                assert(!all_digits(digits));
                assert(spec_parse_u32(t@) is None);
            }
            return None;
        }
        let d: u64 = (cv - 48) as u64;
        let next: u64 = acc * 10 + d;
        proof {
            assert(c as int == cv as int);
            assert(digit_val(t@[k as int]) == d as int);
            assert(t@.subrange(start as int, k + 1).drop_last() =~= t@.subrange(
                start as int,
                k as int,
            ));
            assert(t@.subrange(start as int, k + 1).last() == t@[k as int]);
            assert(digits_val(t@.subrange(start as int, k + 1)) == next);
        }
        if next > 0xFFFF_FFFFu64 {
            proof {
                if all_digits(digits) {
                    lemma_digits_val_prefix(digits, k + 1 - start);
                    assert(digits.take(k + 1 - start) =~= t@.subrange(start as int, k + 1));
                    assert(digits_val(digits) >= next);
                }
                assert(spec_parse_u32(t@) is None);
            }
            return None;
        }
        acc = next;
        k += 1;
        proof {
            assert(all_digits(t@.subrange(start as int, k as int)));
        }
    }
    proof {
        assert(t@.subrange(start as int, k as int) =~= digits);
    }
    Some(acc as u32)
}

/// Extracts the MX priority and target from one answer's data: the first
/// whitespace-delimited token must parse as a `u32` and a second token must
/// exist. On success the returned answer is the given one with its data
/// replaced by the text from the second token onward.
pub fn mx_priority(a: &DnsAnswer) -> (r: Option<(u32, DnsAnswer)>)
    ensures
        r is None <==> spec_mx_priority(a@.data) is None,
        r matches Some(pr) ==> (spec_mx_priority(a@.data) matches Some(q) && pr.0 == q.0 && pr.1@
            == with_data(a@, q.1)),
{
    let s = a.data.as_str();
    let len = s.unicode_len();
    let t1s = skip_ws_exec(s, 0, len);
    let t1e = scan_token_exec(s, t1s, len);
    let t2s = skip_ws_exec(s, t1e, len);
    let t2e = scan_token_exec(s, t2s, len);
    if t1s < t1e && t2s < t2e {
        let tok1 = s.substring_char(t1s, t1e);
        match parse_u32_str(tok1) {
            Some(p) => {
                let tok2 = s.substring_char(t2s, len);
                Some(
                    (
                        p,
                        DnsAnswer {
                            name: a.name.clone(),
                            rtype: a.rtype,
                            ttl: a.ttl,
                            data: tok2.to_owned(),
                        },
                    ),
                )
            },
            None => None,
        }
    } else {
        None
    }
}

/// Collects the surviving MX pairs of the answers, in decoded order.
fn collect_mx_pairs(answers: &Vec<DnsAnswer>) -> (r: Vec<(u32, DnsAnswer)>)
    ensures
        pair_models(r@) == spec_mx_pairs(models(answers@)),
{
    let mut pairs: Vec<(u32, DnsAnswer)> = Vec::new();
    let n = answers.len();
    #[verifier::loop_isolation(false)]
    for i in 0..n
        invariant
            pair_models(pairs@) =~= spec_mx_pairs(models(answers@.take(i as int))),
    {
        let a = &answers[i];
        let ghost prevp = pairs@;
        if a.rtype == 15 {
            match mx_priority(a) {
                Some(pr) => {
                    let ghost prm = (pr.0, pr.1@);
                    pairs.push(pr);
                    proof {
                        assert(pair_models(pairs@) =~= pair_models(prevp).push(prm));
                    }
                },
                None => {},
            }
        }
        proof {
            assert(models(answers@.take(i + 1)).drop_last() =~= models(answers@.take(i as int)));
            assert(models(answers@.take(i + 1)).last() == answers@[i as int]@);
        }
    }
    proof {
        assert(answers@.take(n as int) =~= answers@);
    }
    pairs
}

/// Sorts the pairs by ascending priority with an insertion sort, placing each
/// pair after every already-placed pair of a priority less than or equal to
/// its own; equal priorities keep their relative order.
fn sort_pairs(pairs: &Vec<(u32, DnsAnswer)>) -> (r: Vec<(u32, DnsAnswer)>)
    ensures
        pair_models(r@) == spec_sort_pairs(pair_models(pairs@)),
{
    let mut out: Vec<(u32, DnsAnswer)> = Vec::new();
    let n = pairs.len();
    #[verifier::loop_isolation(false)]
    for i in 0..n
        invariant
            pair_models(out@) =~= spec_sort_pairs(pair_models(pairs@.take(i as int))),
    {
        let x = (pairs[i].0, clone_answer(&pairs[i].1));
        let ghost xm = (x.0, x.1@);
        let mut j: usize = 0;
        #[verifier::loop_isolation(false)]
        while j < out.len() && out[j].0 <= x.0
            invariant
                j <= out@.len(),
                forall|k: int| 0 <= k < j ==> (#[trigger] pair_models(out@)[k]).0 <= xm.0,
            decreases out@.len() - j,
        {
            proof {
                assert(pair_models(out@)[j as int] == (out@[j as int].0, out@[j as int].1@));
            }
            j += 1;
        }
        let ghost prev = out@;
        out.insert(j, x);
        proof {
            lemma_insert_at(pair_models(prev), xm, j as int);
            assert(pair_models(out@) =~= pair_models(prev).subrange(0, j as int) + seq![xm]
                + pair_models(prev).subrange(j as int, prev.len() as int));
            assert(pair_models(pairs@.take(i + 1)).drop_last() =~= pair_models(
                pairs@.take(i as int),
            ));
            assert(pair_models(pairs@.take(i + 1)).last() == xm);
        }
    }
    proof {
        assert(pairs@.take(n as int) =~= pairs@);
    }
    out
}

/// The whole MX pipeline on decoded answers: keep the MX records whose data
/// yields a priority and a target, stable-sort them by ascending priority,
/// and return the answers with the priority stripped from the data.
pub fn mx_process(answers: &Vec<DnsAnswer>) -> (r: Vec<DnsAnswer>)
    ensures
        models(r@) == spec_mx_process(models(answers@)),
{
    let pairs = collect_mx_pairs(answers);
    let sorted = sort_pairs(&pairs);
    let mut out: Vec<DnsAnswer> = Vec::new();
    let m = sorted.len();
    #[verifier::loop_isolation(false)]
    for i in 0..m
        invariant
            models(out@) =~= strip_priorities(pair_models(sorted@.take(i as int))),
    {
        let ghost prev = out@;
        out.push(clone_answer(&sorted[i].1));
        proof {
            assert(models(out@) =~= models(prev).push(sorted@[i as int].1@));
            assert(strip_priorities(pair_models(sorted@.take(i + 1))) =~= strip_priorities(
                pair_models(sorted@.take(i as int)),
            ).push(sorted@[i as int].1@));
        }
    }
    proof {
        assert(sorted@.take(m as int) =~= sorted@);
    }
    out
}

} // verus!
