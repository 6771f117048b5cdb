//! Merging the pages that each datacenter returns for a list request.

use vstd::prelude::*;
use vstd::multiset::Multiset;
use vstd::seq_lib::*;
use vstd::string::*;

verus! {

broadcast use vstd::seq_lib::group_to_multiset_ensures;

/// How many items a list returns where the caller gave no limit.
pub const DEFAULT_LIMIT: usize = 100;

/// A runner as the list endpoints return it.
pub struct Runner {
    pub runner_id: u128,
    pub name: String,
    pub create_ts: i64,
}

/// The cursor of a page: the key of its last item, or none where the list
/// is exhausted.
pub struct Pagination {
    pub cursor: Option<String>,
}

pub struct RunnersListResponse {
    pub runners: Vec<Runner>,
    pub pagination: Pagination,
}

pub struct NamesListResponse {
    pub names: Vec<String>,
    pub pagination: Pagination,
}

/// The pages one after the other.
pub open spec fn concat_pages<T>(pages: Seq<Vec<T>>) -> Seq<T>
    decreases pages.len(),
{
    if pages.len() == 0 {
        Seq::empty()
    } else {
        concat_pages(pages.drop_last()) + pages.last()@
    }
}

/// Newest first: creation times never increase along the sequence.
pub open spec fn sorted_by_create_ts_desc(s: Seq<Runner>) -> bool {
    forall|i: int, j: int| 0 <= i < j < s.len() ==> s[i].create_ts >= s[j].create_ts
}

/// The limit a list request applies.
pub open spec fn effective_limit(limit: Option<usize>) -> nat {
    match limit {
        Some(l) => l as nat,
        None => DEFAULT_LIMIT as nat,
    }
}

pub open spec fn min_nat(a: nat, b: nat) -> nat {
    if a <= b {
        a
    } else {
        b
    }
}

/// Decimal digits of a non-negative integer, without leading zeros.
pub open spec fn nat_decimal(n: nat) -> Seq<char>
    decreases n,
{
    if n < 10 {
        seq![(('0' as nat) + n) as char]
    } else {
        nat_decimal(n / 10).push((('0' as nat) + n % 10) as char)
    }
}

/// Decimal text of an integer, with a leading `-` where it is negative.
pub open spec fn int_decimal(n: int) -> Seq<char> {
    if n < 0 {
        seq!['-'] + nat_decimal((-n) as nat)
    } else {
        nat_decimal(n as nat)
    }
}

/// The text of one decimal digit.
fn digit_text(d: u64) -> (r: &'static str)
    requires
        d < 10,
    ensures
        r@ == seq![(('0' as nat) + d) as char],
{
    match d {
        0 => {
            proof {
                reveal_strlit("0");
                assert("0"@ =~= seq!['0']);
            }
            "0"
        },
        1 => {
            proof {
                reveal_strlit("1");
                assert("1"@ =~= seq!['1']);
            }
            "1"
        },
        2 => {
            proof {
                reveal_strlit("2");
                assert("2"@ =~= seq!['2']);
            }
            "2"
        },
        3 => {
            proof {
                reveal_strlit("3");
                assert("3"@ =~= seq!['3']);
            }
            "3"
        },
        4 => {
            proof {
                reveal_strlit("4");
                assert("4"@ =~= seq!['4']);
            }
            "4"
        },
        5 => {
            proof {
                reveal_strlit("5");
                assert("5"@ =~= seq!['5']);
            }
            "5"
        },
        6 => {
            proof {
                reveal_strlit("6");
                assert("6"@ =~= seq!['6']);
            }
            "6"
        },
        7 => {
            proof {
                reveal_strlit("7");
                assert("7"@ =~= seq!['7']);
            }
            "7"
        },
        8 => {
            proof {
                reveal_strlit("8");
                assert("8"@ =~= seq!['8']);
            }
            "8"
        },
        _ => {
            proof {
                reveal_strlit("9");
                assert("9"@ =~= seq!['9']);
            }
            "9"
        },
    }
}

/// Appends the decimal digits of `n` to `out`.
fn write_decimal(n: u64, out: &mut String)
    ensures
        final(out)@ == old(out)@ + nat_decimal(n as nat),
    decreases n,
{
    if n >= 10 {
        write_decimal(n / 10, out);
    }
    let ghost mid = out@;
    out.append(digit_text(n % 10));
    proof {
        if n >= 10 {
            assert(out@ =~= old(out)@ + nat_decimal(n as nat));
        } else {
            assert(mid == old(out)@);
            assert(out@ =~= old(out)@ + nat_decimal(n as nat));
        }
    }
}

/// The decimal text of `n`, as `i64`'s `Display` writes it.
pub fn i64_to_string(n: i64) -> (r: String)
    ensures
        r@ == int_decimal(n as int),
{
    let mut out = String::new();
    if n < 0 {
        out.append("-");
        proof {
            reveal_strlit("-");
            assert(out@ =~= seq!['-']);
        }
        let magnitude: u64 = (0i128 - n as i128) as u64;
        write_decimal(magnitude, &mut out);
    } else {
        write_decimal(n as u64, &mut out);
        proof {
            assert(out@ =~= int_decimal(n as int));
        }
    }
    out
}

/// The cursor text of a creation time.
pub fn create_ts_cursor(create_ts: i64) -> (r: String)
    ensures
        r@ == int_decimal(create_ts as int),
{
    i64_to_string(create_ts)
}

/// The runners of `s` created at time `ts`, in order.
pub open spec fn created_at(s: Seq<Runner>, ts: i64) -> Seq<Runner>
    decreases s.len(),
{
    if s.len() == 0 {
        s
    } else {
        let rest = created_at(s.drop_last(), ts);
        if s.last().create_ts == ts {
            rest.push(s.last())
        } else {
            rest
        }
    }
}

/// Runners created at the same time stand in the same order in `a` as in `b`.
pub open spec fn same_order_of_ties(a: Seq<Runner>, b: Seq<Runner>) -> bool {
    forall|ts: i64| #[trigger] created_at(a, ts) == created_at(b, ts)
}

proof fn lemma_created_at_concat(a: Seq<Runner>, b: Seq<Runner>, ts: i64)
    ensures
        created_at(a + b, ts) == created_at(a, ts) + created_at(b, ts),
    decreases b.len(),
{
    if b.len() == 0 {
        assert(a + b =~= a);
        assert(created_at(a, ts) + created_at(b, ts) =~= created_at(a, ts));
    } else {
        assert((a + b).drop_last() =~= a + b.drop_last());
        assert((a + b).last() == b.last());
        lemma_created_at_concat(a, b.drop_last(), ts);
        if b.last().create_ts == ts {
            assert(created_at(a + b, ts) =~= created_at(a, ts) + created_at(b, ts));
        }
    }
}

proof fn lemma_created_at_none(s: Seq<Runner>, ts: i64)
    requires
        forall|k: int| 0 <= k < s.len() ==> (#[trigger] s[k]).create_ts != ts,
    ensures
        created_at(s, ts) == Seq::<Runner>::empty(),
    decreases s.len(),
{
    if s.len() > 0 {
        lemma_created_at_none(s.drop_last(), ts);
    }
}

/// Inserts `x` after every runner at least as new, keeping the order newest first.
fn insert_by_create_ts(res: &mut Vec<Runner>, x: Runner)
    requires
        sorted_by_create_ts_desc(old(res)@),
    ensures
        sorted_by_create_ts_desc(final(res)@),
        forall|ts: i64| #[trigger] created_at(final(res)@, ts) == if ts == x.create_ts {
            created_at(old(res)@, ts).push(x)
        } else {
            created_at(old(res)@, ts)
        },
        final(res)@.to_multiset() == old(res)@.to_multiset().insert(x),
        final(res)@.len() == old(res)@.len() + 1,
{
    let mut j: usize = 0;
    while j < res.len() && res[j].create_ts >= x.create_ts
        invariant
            0 <= j <= res@.len(),
            res@ == old(res)@,
            forall|k: int| 0 <= k < j ==> (#[trigger] res@[k]).create_ts >= x.create_ts,
        decreases res@.len() - j,
    {
        j = j + 1;
    }
    let ghost before = res@;
    res.insert(j, x);
    proof {
        to_multiset_insert(before, j as int, x);
        let head = before.take(j as int);
        let tail = before.skip(j as int);
        assert(before =~= head + tail);
        assert(res@ =~= head + seq![x] + tail);
        assert forall|ts: i64| #[trigger] created_at(res@, ts) == if ts == x.create_ts {
            created_at(before, ts).push(x)
        } else {
            created_at(before, ts)
        } by {
            lemma_created_at_concat(head + seq![x], tail, ts);
            lemma_created_at_concat(head, seq![x], ts);
            lemma_created_at_concat(head, tail, ts);
            assert(seq![x].drop_last() =~= Seq::<Runner>::empty());
            assert(created_at(Seq::<Runner>::empty(), ts) == Seq::<Runner>::empty());
            assert(seq![x].last() == x);
            if ts == x.create_ts {
                assert(created_at(seq![x], ts) =~= seq![x]);
                assert forall|k: int| 0 <= k < tail.len() implies (#[trigger] tail[k]).create_ts != ts by {
                    assert(tail[k] == before[j + k]);
                    if k > 0 {
                        assert(before[j as int].create_ts >= before[j + k].create_ts);
                    }
                }
                lemma_created_at_none(tail, ts);
                assert(created_at(before, ts) =~= created_at(head, ts));
                assert(created_at(res@, ts) =~= created_at(head, ts).push(x));
            } else {
                assert(created_at(seq![x], ts) =~= Seq::<Runner>::empty());
                assert(created_at(res@, ts) =~= created_at(before, ts));
            }
        }
        assert forall|a: int, b: int| 0 <= a < b < res@.len() implies res@[a].create_ts
            >= res@[b].create_ts by {
            if b < j {
            } else if b == j {
            } else if a < j {
                assert(res@[b] == before[b - 1]);
            } else if a == j {
                assert(res@[b] == before[b - 1]);
                assert(before[j as int].create_ts < x.create_ts);
            } else {
                assert(res@[a] == before[a - 1]);
                assert(res@[b] == before[b - 1]);
            }
        }
    }
}

/// All items of the pages, newest first; runners created at the same time
/// keep the order in which the pages held them.
pub fn sort_runners(items: Vec<Runner>) -> (r: Vec<Runner>)
    ensures
        sorted_by_create_ts_desc(r@),
        r@.to_multiset() == items@.to_multiset(),
        same_order_of_ties(r@, items@),
{
    let mut items = items;
    let ghost all = items@;
    let mut res: Vec<Runner> = Vec::new();
    let ghost mut i: int = 0;
    while items.len() > 0
        invariant
            sorted_by_create_ts_desc(res@),
            res@.to_multiset().add(items@.to_multiset()) == all.to_multiset(),
            0 <= i <= all.len(),
            items@ == all.skip(i),
            forall|ts: i64| #[trigger] created_at(res@, ts) == created_at(all.take(i), ts),
        decreases items@.len(),
    {
        let ghost rest = items@;
        let x = items.remove(0);
        proof {
            assert(all.take(i + 1).drop_last() =~= all.take(i));
            assert(all.take(i + 1).last() == x);
            assert(items@ =~= all.skip(i + 1));
        }
        proof {
            assert(rest == seq![x] + items@) by {
                assert(rest =~= seq![x] + items@);
            }
            vstd::seq_lib::lemma_multiset_commutative(seq![x], items@);
            assert(rest.to_multiset() == items@.to_multiset().insert(x));
        }
        insert_by_create_ts(&mut res, x);
        proof {
            assert(res@.to_multiset().add(items@.to_multiset()) =~= all.to_multiset());
            i = i + 1;
        }
    }
    proof {
        assert(all.take(i) =~= all);
        assert(items@.to_multiset() =~= Multiset::empty());
        assert(res@.to_multiset() =~= all.to_multiset());
    }
    res
}

/// Merges the runners that every datacenter returned: newest first,
/// at most `limit` of them (100 where none is given), with the creation time
/// of the last one as the cursor.
pub fn merge_runner_pages(pages: Vec<Vec<Runner>>, limit: Option<usize>) -> (r: RunnersListResponse)
    ensures
        sorted_by_create_ts_desc(r.runners@),
        r.runners@.len() == min_nat(effective_limit(limit), concat_pages(pages@).len()),
        exists|full: Seq<Runner>|
            #![trigger full.to_multiset()]
            full.to_multiset() == concat_pages(pages@).to_multiset() && sorted_by_create_ts_desc(full)
                && same_order_of_ties(full, concat_pages(pages@))
                && r.runners@ == full.take(r.runners@.len() as int),
        r.runners@.len() == 0 ==> r.pagination.cursor is None,
        r.runners@.len() > 0 ==> (r.pagination.cursor matches Some(c) && c@ == int_decimal(
            r.runners@.last().create_ts as int,
        )),
{
    let mut pages = pages;
    let ghost all_pages = pages@;
    let mut all: Vec<Runner> = Vec::new();
    proof {
        lemma_concat_rest_is_concat(all_pages);
        assert(all@ + concat_rest(pages@) =~= concat_pages(all_pages));
    }
    while pages.len() > 0
        invariant
            all@ + concat_rest(pages@) == concat_pages(all_pages),
        decreases pages@.len(),
    {
        let ghost before = pages@;
        let mut page = pages.remove(0);
        proof {
            lemma_concat_rest_first(before);
            assert(before.drop_first() =~= pages@);
        }
        all.append(&mut page);
        proof {
            assert(all@ + concat_rest(pages@) =~= concat_pages(all_pages));
        }
    }
    proof {
        assert(all@ =~= concat_pages(all_pages));
    }
    let ghost total = all@;
    let mut sorted = sort_runners(all);
    let ghost full = sorted@;
    let lim = match limit {
        Some(l) => l,
        None => DEFAULT_LIMIT,
    };
    sorted.truncate(lim);
    proof {
        total.to_multiset_ensures();
        full.to_multiset_ensures();
        assert(full.len() == total.len()) by {
            vstd::seq_lib::to_multiset_len(full);
            vstd::seq_lib::to_multiset_len(total);
        }
        assert(sorted@ == full.take(sorted@.len() as int));
        assert(sorted_by_create_ts_desc(sorted@)) by {
            assert forall|a: int, b: int| 0 <= a < b < sorted@.len() implies sorted@[a].create_ts
                >= sorted@[b].create_ts by {
                assert(sorted@[a] == full[a]);
                assert(sorted@[b] == full[b]);
            }
        }
    }
    let cursor = if sorted.len() > 0 {
        Some(create_ts_cursor(sorted[sorted.len() - 1].create_ts))
    } else {
        None
    };
    RunnersListResponse { runners: sorted, pagination: Pagination { cursor } }
}

/// Lexicographic order of character sequences; for strings it is the order
/// of their UTF-8 bytes, which is how `String` compares.
pub open spec fn lex_le(a: Seq<char>, b: Seq<char>) -> bool
    decreases a.len(),
{
    if a.len() == 0 {
        true
    } else if b.len() == 0 {
        false
    } else if a[0] != b[0] {
        (a[0] as u32) < (b[0] as u32)
    } else {
        lex_le(a.drop_first(), b.drop_first())
    }
}

pub open spec fn names_view(v: Seq<String>) -> Seq<Seq<char>> {
    v.map_values(|s: String| s@)
}

pub open spec fn sorted_names(s: Seq<Seq<char>>) -> bool {
    forall|i: int, j: int| 0 <= i < j < s.len() ==> lex_le(s[i], s[j])
}

/// Relies on `slice::sort` on `String`s, which puts them in ascending order
/// and keeps every element.
#[verifier::external_body]
fn sort_strings(v: &mut Vec<String>)
    ensures
        names_view(final(v)@).to_multiset() == names_view(old(v)@).to_multiset(),
        final(v)@.len() == old(v)@.len(),
        sorted_names(names_view(final(v)@)),
{
    v.sort();
}

/// Merges the runner names that every datacenter returned: in ascending
/// order, at most `limit` of them (100 where none is given), with the last
/// one as the cursor.
pub fn merge_name_pages(pages: Vec<Vec<String>>, limit: Option<usize>) -> (r: NamesListResponse)
    ensures
        sorted_names(names_view(r.names@)),
        r.names@.len() == min_nat(effective_limit(limit), concat_pages(pages@).len()),
        exists|full: Seq<String>|
            #![trigger full.len()]
            names_view(full).to_multiset() == names_view(concat_pages(pages@)).to_multiset()
                && sorted_names(names_view(full)) && r.names@ == full.take(r.names@.len() as int),
        r.names@.len() == 0 ==> r.pagination.cursor is None,
        r.names@.len() > 0 ==> (r.pagination.cursor matches Some(c) && c@ == r.names@.last()@),
{
    let mut pages = pages;
    let ghost all_pages = pages@;
    let mut all: Vec<String> = Vec::new();
    proof {
        lemma_concat_rest_is_concat(all_pages);
        assert(all@ + concat_rest(pages@) =~= concat_pages(all_pages));
    }
    while pages.len() > 0
        invariant
            all@ + concat_rest(pages@) == concat_pages(all_pages),
        decreases pages@.len(),
    {
        let ghost before = pages@;
        let mut page = pages.remove(0);
        proof {
            lemma_concat_rest_first(before);
            assert(before.drop_first() =~= pages@);
        }
        all.append(&mut page);
        proof {
            assert(all@ + concat_rest(pages@) =~= concat_pages(all_pages));
        }
    }
    proof {
        assert(all@ =~= concat_pages(all_pages));
    }
    sort_strings(&mut all);
    let ghost full = all@;
    let lim = match limit {
        Some(l) => l,
        None => DEFAULT_LIMIT,
    };
    all.truncate(lim);
    proof {
        assert(all@ == full.take(all@.len() as int));
        assert(sorted_names(names_view(all@))) by {
            assert forall|a: int, b: int| 0 <= a < b < all@.len() implies lex_le(
                names_view(all@)[a],
                names_view(all@)[b],
            ) by {
                assert(names_view(all@)[a] == names_view(full)[a]);
                assert(names_view(all@)[b] == names_view(full)[b]);
            }
        }
    }
    let cursor = if all.len() > 0 {
        Some(all[all.len() - 1].clone())
    } else {
        None
    };
    NamesListResponse { names: all, pagination: Pagination { cursor } }
}

/// The pages one after the other, taken from the front.
pub open spec fn concat_rest<T>(pages: Seq<Vec<T>>) -> Seq<T>
    decreases pages.len(),
{
    if pages.len() == 0 {
        Seq::empty()
    } else {
        pages[0]@ + concat_rest(pages.drop_first())
    }
}

proof fn lemma_concat_rest_first<T>(pages: Seq<Vec<T>>)
    requires
        pages.len() > 0,
    ensures
        concat_rest(pages) == pages[0]@ + concat_rest(pages.drop_first()),
{
}

/// Taking the pages from the front or from the back gives the same sequence.
proof fn lemma_concat_rest_is_concat<T>(pages: Seq<Vec<T>>)
    ensures
        concat_rest(pages) == concat_pages(pages),
    decreases pages.len(),
{
    if pages.len() > 0 {
        lemma_concat_rest_is_concat(pages.drop_first());
        if pages.len() == 1 {
            assert(pages.drop_first() =~= Seq::<Vec<T>>::empty());
            assert(pages.drop_last() =~= Seq::<Vec<T>>::empty());
            assert(concat_rest(pages) =~= concat_pages(pages));
        } else {
            lemma_concat_rest_is_concat(pages.drop_last());
            lemma_concat_rest_is_concat(pages.drop_first().drop_last());
            assert(pages.drop_first().drop_last() =~= pages.drop_last().drop_first());
            assert(pages.drop_first().last() == pages.last());
            assert(pages.drop_last()[0] == pages[0]);
            assert(concat_rest(pages.drop_last()) == pages[0]@ + concat_rest(pages.drop_last().drop_first()));
            assert(concat_rest(pages) =~= concat_pages(pages));
        }
    }
}

} // verus!
