//! What holds of the pages in which proposals and votes are listed, and of the answers to queries.
use crate::contract::number_result;
use crate::error::{std_result, PlatformErrorView};
use crate::expiration::BlockInfo;
use crate::msg::{Env, QueryMsg};
use crate::order::{is_page, lemma_bytes_irreflexive, lemma_bytes_transitive, text_before};
use crate::outside::Answers;
use crate::query::{
    all_balances_result, answered, ascending, by_text, coins_result, descending, ids_after,
    ids_before, is_proposal_page, is_query_result, is_reverse_proposal_page, is_vote_list,
    is_vote_page, page_limit, proposal_result, shown_ids, shown_proposal, shown_voters, shows_proposals, shows_vote,
    threshold_result, vote_query_result, voter_result, voters_after, voters_of, votes_start,
    AllBalancesView, ProposalResponseView, QueryResponseView, VoteInfoView,
};
use crate::state::{ConfigView, DaoView};
use crate::threshold::ThresholdResponse;
use crate::views::option_view;
use vstd::prelude::*;
use vstd::utf8::encode_utf8;

verus! {

/// `before` puts the keys in a strict total order.
pub open spec fn orders<K>(keys: Set<K>, before: spec_fn(K, K) -> bool) -> bool {
    &&& forall|a: K| keys.contains(a) ==> !#[trigger] before(a, a)
    &&& forall|a: K, b: K, c: K|
        keys.contains(a) && keys.contains(b) && keys.contains(c) && #[trigger] before(a, b)
            && #[trigger] before(b, c) ==> before(a, c)
}

/// There is only one page: what is on it follows from the keys, the order, the start and the
/// limit.
pub proof fn law_page_is_unique<K>(
    keys: Set<K>,
    before: spec_fn(K, K) -> bool,
    admits: spec_fn(K) -> bool,
    limit: nat,
    left: Seq<K>,
    right: Seq<K>,
)
    requires
        orders(keys, before),
        is_page(keys, before, admits, limit, left),
        is_page(keys, before, admits, limit, right),
    ensures
        left == right,
{
    lemma_page_prefix(keys, before, admits, limit, left, right, left.len());
    lemma_page_prefix(keys, before, admits, limit, right, left, right.len());
    assert(left =~= right);
}

/// Two pages agree as far as one of them goes.
proof fn lemma_page_prefix<K>(
    keys: Set<K>,
    before: spec_fn(K, K) -> bool,
    admits: spec_fn(K) -> bool,
    limit: nat,
    left: Seq<K>,
    right: Seq<K>,
    n: nat,
)
    requires
        orders(keys, before),
        is_page(keys, before, admits, limit, left),
        is_page(keys, before, admits, limit, right),
        n <= left.len(),
    ensures
        n <= right.len(),
        forall|i: int| 0 <= i < n ==> left[i] == right[i],
    decreases n,
{
    if n > 0 {
        let m = (n - 1) as nat;
        lemma_page_prefix(keys, before, admits, limit, left, right, m);
        let key = left[m as int];
        assert(keys.contains(key) && admits(key));
        assert(right.contains(key)) by {
            if !right.contains(key) {
                assert(right.len() == limit);
                let other = right[m as int];
                assert(before(right[m as int], key));
                assert(keys.contains(other) && admits(other));
                if left.contains(other) {
                    let j = choose|j: int| 0 <= j < left.len() && left[j] == other;
                    if j < m {
                        assert(before(right[j], right[m as int]));
                    } else if j > m {
                        assert(before(left[m as int], left[j]));
                        assert(before(key, key));
                    }
                } else {
                    assert(before(left[m as int], other));
                    assert(before(key, key));
                }
            }
        }
        let at = choose|at: int| 0 <= at < right.len() && right[at] == key;
        if at < m {
            assert(before(left[at], left[m as int]));
        } else if at > m {
            let other = right[m as int];
            assert(before(right[m as int], right[at]));
            assert(keys.contains(other) && admits(other));
            if left.contains(other) {
                let j = choose|j: int| 0 <= j < left.len() && left[j] == other;
                if j < m {
                    assert(before(right[j], right[m as int]));
                } else if j > m {
                    assert(before(left[m as int], left[j]));
                    assert(before(key, key));
                }
            } else {
                assert(before(left[m as int], other));
                assert(before(key, key));
            }
        }
    }
}

/// A page is also the page of any part of the keys that holds every key on it: to show a page, it is
/// enough to have what is on it.
pub proof fn law_page_of_a_part<K>(
    keys: Set<K>,
    part: Set<K>,
    before: spec_fn(K, K) -> bool,
    admits: spec_fn(K) -> bool,
    limit: nat,
    page: Seq<K>,
)
    requires
        is_page(keys, before, admits, limit, page),
        part.subset_of(keys),
        forall|i: int| 0 <= i < page.len() ==> part.contains(#[trigger] page[i]),
    ensures
        is_page(part, before, admits, limit, page),
{
    assert forall|i: int| 0 <= i < page.len() implies part.contains(page[i]) && admits(page[i]) by {
        assert(keys.contains(page[i]) && admits(page[i]));
    }
}

/// Reading on from the last key of a page gives what comes next: the two pages joined are the page
/// that one would have got with both limits together. So nothing is skipped and nothing comes
/// twice.
pub proof fn law_next_page_follows<K>(
    keys: Set<K>,
    before: spec_fn(K, K) -> bool,
    admits: spec_fn(K) -> bool,
    limit: nat,
    more: nat,
    page: Seq<K>,
    next: Seq<K>,
)
    requires
        orders(keys, before),
        page.len() == limit,
        limit > 0,
        is_page(keys, before, admits, limit, page),
        is_page(keys, before, |key: K| admits(key) && before(page.last(), key), more, next),
    ensures
        is_page(keys, before, admits, limit + more, page + next),
{
    let both = page + next;
    let after = |key: K| admits(key) && before(page.last(), key);
    let last = page.last();
    assert(keys.contains(last)) by {
        assert(last == page[page.len() - 1]);
    }
    assert forall|i: int, j: int| 0 <= i < j < both.len() implies before(both[i], both[j]) by {
        if i < limit && j >= limit {
            let key = next[j - limit];
            assert(keys.contains(key) && after(key));
            if i < limit - 1 {
                assert(before(page[i], last));
            }
        } else if i >= limit {
            assert(before(next[i - limit], next[j - limit]));
        }
    }
    assert forall|i: int| 0 <= i < both.len() implies keys.contains(both[i]) && admits(both[i]) by {
        if i >= limit {
            assert(keys.contains(next[i - limit]) && after(next[i - limit]));
        }
    }
    assert forall|k: K| #[trigger]
        keys.contains(k) && admits(k) && !both.contains(k) implies both.len() == limit + more && (
    forall|i: int| 0 <= i < both.len() ==> before(#[trigger] both[i], k)) by {
        if page.contains(k) {
            let i = choose|i: int| 0 <= i < page.len() && page[i] == k;
            assert(both[i] == k);
        }
        if next.contains(k) {
            let i = choose|i: int| 0 <= i < next.len() && next[i] == k;
            assert(both[limit + i] == k);
        }
        assert(before(page[limit - 1], k));
        assert(after(k));
        assert forall|i: int| 0 <= i < both.len() implies before(#[trigger] both[i], k) by {
            if i < limit {
                assert(before(page[i], k));
            } else {
                assert(before(next[i - limit], k));
            }
        }
    }
}

/// A page that holds every key, read backwards, is the page in the opposite order.
pub proof fn law_reverse_page<K>(
    keys: Set<K>,
    before: spec_fn(K, K) -> bool,
    admits: spec_fn(K) -> bool,
    limit: nat,
    page: Seq<K>,
)
    requires
        is_page(keys, before, admits, limit, page),
        forall|k: K| #[trigger] keys.contains(k) && admits(k) ==> page.contains(k),
    ensures
        is_page(keys, |a: K, b: K| before(b, a), admits, limit, page.reverse()),
{
    let back = page.reverse();
    assert forall|i: int, j: int| 0 <= i < j < back.len() implies before(back[j], back[i]) by {
        assert(back[i] == page[page.len() - 1 - i]);
        assert(back[j] == page[page.len() - 1 - j]);
    }
    assert forall|i: int| 0 <= i < back.len() implies keys.contains(back[i]) && admits(back[i]) by {
        assert(back[i] == page[page.len() - 1 - i]);
    }
    assert forall|k: K| #[trigger] keys.contains(k) && admits(k) implies back.contains(k) by {
        let i = choose|i: int| 0 <= i < page.len() && page[i] == k;
        assert(back[page.len() - 1 - i] == k);
    }
}

/// Proposals have one order from the first to the last, one back, and accounts have one of their
/// own.
pub proof fn law_page_orders(ids: Set<u64>, voters: Set<Seq<char>>)
    ensures
        orders(ids, ascending()),
        orders(ids, descending()),
        orders(voters, by_text()),
{
    assert forall|a: Seq<char>| voters.contains(a) implies !#[trigger] by_text()(a, a) by {
        lemma_bytes_irreflexive(encode_utf8(a));
    }
    assert forall|a: Seq<char>, b: Seq<char>, c: Seq<char>|
        voters.contains(a) && voters.contains(b) && voters.contains(c) && #[trigger] by_text()(a, b)
            && #[trigger] by_text()(b, c) implies by_text()(a, c) by {
        lemma_bytes_transitive(encode_utf8(a), encode_utf8(b), encode_utf8(c));
    }
}

/// A page of proposals is settled by the state, the block, the start and the limit.
pub proof fn law_proposal_page_is_unique(
    dao: DaoView,
    block: BlockInfo,
    start: Option<u64>,
    limit: Option<u32>,
    left: Seq<ProposalResponseView>,
    right: Seq<ProposalResponseView>,
)
    ensures
        is_proposal_page(dao, block, start, limit, left) && is_proposal_page(
            dao,
            block,
            start,
            limit,
            right,
        ) ==> left == right,
        is_reverse_proposal_page(dao, block, start, limit, left) && is_reverse_proposal_page(
            dao,
            block,
            start,
            limit,
            right,
        ) ==> left == right,
{
    let keys = dao.proposals.dom();
    let (a, b) = (shown_ids(left), shown_ids(right));
    law_page_orders(keys, Set::empty());
    if is_proposal_page(dao, block, start, limit, left) && is_proposal_page(
        dao,
        block,
        start,
        limit,
        right,
    ) {
        law_page_is_unique(keys, ascending(), ids_after(start), page_limit(limit), a, b);
        lemma_same_proposals(dao, block, left, right);
    }
    if is_reverse_proposal_page(dao, block, start, limit, left) && is_reverse_proposal_page(
        dao,
        block,
        start,
        limit,
        right,
    ) {
        law_page_is_unique(keys, descending(), ids_before(start), page_limit(limit), a, b);
        lemma_same_proposals(dao, block, left, right);
    }
}

/// Pages with the same identifiers show the same.
proof fn lemma_same_proposals(
    dao: DaoView,
    block: BlockInfo,
    left: Seq<ProposalResponseView>,
    right: Seq<ProposalResponseView>,
)
    requires
        shows_proposals(dao, block, left),
        shows_proposals(dao, block, right),
        shown_ids(left) == shown_ids(right),
    ensures
        left == right,
{
    assert(left.len() == shown_ids(left).len());
    assert(right.len() == shown_ids(right).len());
    assert forall|i: int| 0 <= i < left.len() implies left[i] == right[i] by {
        assert(shown_ids(left)[i] == left[i].id);
        assert(shown_ids(right)[i] == right[i].id);
    }
    assert(left =~= right);
}

/// A page of votes is settled by the state, the proposal, the start and the limit.
pub proof fn law_vote_page_is_unique(
    dao: DaoView,
    proposal_id: u64,
    start: Option<Seq<char>>,
    limit: Option<u32>,
    left: Seq<VoteInfoView>,
    right: Seq<VoteInfoView>,
)
    requires
        is_vote_page(dao, proposal_id, start, limit, left),
        is_vote_page(dao, proposal_id, start, limit, right),
    ensures
        left == right,
{
    let keys = voters_of(dao, proposal_id);
    let (a, b) = (shown_voters(left), shown_voters(right));
    law_page_orders(Set::empty(), keys);
    law_page_is_unique(keys, by_text(), voters_after(start), page_limit(limit), a, b);
    assert(left.len() == a.len());
    assert(right.len() == b.len());
    assert forall|i: int| 0 <= i < left.len() implies left[i] == right[i] by {
        assert(a[i] == left[i].voter);
        assert(b[i] == right[i].voter);
    }
    assert(left =~= right);
}

/// A page depends on which keys are let through, not on how that is said.
proof fn lemma_page_admits<K>(
    keys: Set<K>,
    before: spec_fn(K, K) -> bool,
    admits: spec_fn(K) -> bool,
    other: spec_fn(K) -> bool,
    limit: nat,
    page: Seq<K>,
)
    requires
        is_page(keys, before, admits, limit, page),
        forall|k: K| #[trigger] keys.contains(k) ==> admits(k) == other(k),
    ensures
        is_page(keys, before, other, limit, page),
{
    assert forall|i: int| 0 <= i < page.len() implies keys.contains(page[i]) && other(page[i]) by {
        assert(keys.contains(page[i]) && admits(page[i]));
    }
}

/// Pages one after the other.
pub open spec fn joined<A>(pages: Seq<Seq<A>>) -> Seq<A>
    decreases pages.len(),
{
    if pages.len() == 0 {
        Seq::empty()
    } else {
        joined(pages.drop_last()) + pages.last()
    }
}

/// All pages hold something but the last, which is empty.
pub open spec fn until_empty<A>(pages: Seq<Seq<A>>) -> bool {
    &&& pages.len() > 0
    &&& pages.last().len() == 0
    &&& forall|i: int| 0 <= i < pages.len() - 1 ==> (#[trigger] pages[i]).len() > 0
}

/// `all` holds every key that `admits` lets through exactly once, in the order `before`, and
/// nothing else.
pub open spec fn holds_all_in_order<K>(
    keys: Set<K>,
    before: spec_fn(K, K) -> bool,
    admits: spec_fn(K) -> bool,
    all: Seq<K>,
) -> bool {
    &&& forall|i: int, j: int| 0 <= i < j < all.len() ==> before(all[i], all[j])
    &&& all.no_duplicates()
    &&& forall|k: K| #[trigger] all.contains(k) <==> keys.contains(k) && admits(k)
}

/// Each page goes on after the last key of the one before it.
pub open spec fn reads_on<K>(
    keys: Set<K>,
    before: spec_fn(K, K) -> bool,
    admits: spec_fn(K) -> bool,
    limit: nat,
    pages: Seq<Seq<K>>,
) -> bool {
    forall|i: int|
        0 <= i < pages.len() ==> is_page(
            keys,
            before,
            if i == 0 {
                admits
            } else {
                |key: K| before(pages[i - 1].last(), key)
            },
            limit,
            #[trigger] pages[i],
        )
}

/// All pages but the last read on as well.
proof fn lemma_reads_on<K>(
    keys: Set<K>,
    before: spec_fn(K, K) -> bool,
    admits: spec_fn(K) -> bool,
    limit: nat,
    pages: Seq<Seq<K>>,
)
    requires
        pages.len() > 0,
        reads_on(keys, before, admits, limit, pages),
    ensures
        reads_on(keys, before, admits, limit, pages.drop_last()),
{
    let rest = pages.drop_last();
    assert forall|i: int| 0 <= i < rest.len() implies is_page(
        keys,
        before,
        if i == 0 {
            admits
        } else {
            |key: K| before(rest[i - 1].last(), key)
        },
        limit,
        #[trigger] rest[i],
    ) by {
        assert(rest[i] == pages[i]);
        if i > 0 {
            assert(rest[i - 1] == pages[i - 1]);
        }
    }
}

/// What has been read so far are the first keys that are let through, in order.
proof fn lemma_read_so_far<K>(
    keys: Set<K>,
    before: spec_fn(K, K) -> bool,
    admits: spec_fn(K) -> bool,
    limit: nat,
    pages: Seq<Seq<K>>,
)
    requires
        orders(keys, before),
        forall|a: K, b: K|
            keys.contains(a) && keys.contains(b) && admits(a) && #[trigger] before(a, b) ==> admits(b),
        reads_on(keys, before, admits, limit, pages),
        forall|i: int| 0 <= i < pages.len() ==> (#[trigger] pages[i]).len() > 0,
    ensures
        pages.len() > 0 ==> joined(pages).len() > 0 && joined(pages).last() == pages.last().last(),
        is_page(keys, before, admits, joined(pages).len(), joined(pages)),
    decreases pages.len(),
{
    if pages.len() > 0 {
        let rest = pages.drop_last();
        let page = pages.last();
        let so_far = joined(rest);
        let all = joined(pages);
        assert forall|i: int| 0 <= i < rest.len() implies (#[trigger] rest[i]).len() > 0 by {
            assert(rest[i] == pages[i]);
        }
        lemma_reads_on(keys, before, admits, limit, pages);
        lemma_read_so_far(keys, before, admits, limit, rest);
        let n = pages.len() - 1;
        assert(pages[n] == page && page.len() > 0);
        if n == 0 {
            assert(so_far =~= Seq::empty());
            assert(all =~= page);
        } else {
            let last = so_far.last();
            assert(rest.last() == pages[n - 1]);
            let after = |key: K| before(pages[n - 1].last(), key);
            assert(is_page(keys, before, after, limit, page));
            assert(so_far[so_far.len() - 1] == last);
            assert(keys.contains(last) && admits(last));
            assert forall|i: int| 0 <= i < all.len() implies keys.contains(all[i]) && admits(
                all[i],
            ) by {
                if i >= so_far.len() {
                    let key = page[i - so_far.len()];
                    assert(keys.contains(key) && after(key));
                }
            }
            assert forall|i: int, j: int| 0 <= i < j < all.len() implies before(all[i], all[j]) by {
                if j >= so_far.len() {
                    let key = page[j - so_far.len()];
                    assert(keys.contains(key) && after(key));
                    if i >= so_far.len() {
                        assert(before(page[i - so_far.len()], key));
                    } else if i < so_far.len() - 1 {
                        assert(before(so_far[i], so_far[so_far.len() - 1]));
                        assert(keys.contains(so_far[i]));
                    }
                }
            }
            assert forall|k: K| #[trigger] keys.contains(k) && admits(k) && !all.contains(k) implies (
            forall|i: int| 0 <= i < all.len() ==> before(#[trigger] all[i], k)) by {
                lemma_in_both(so_far, page, k);
                assert(before(so_far[so_far.len() - 1], k));
                assert(after(k));
                assert forall|i: int| 0 <= i < all.len() implies before(#[trigger] all[i], k) by {
                    if i < so_far.len() {
                        assert(before(so_far[i], k));
                    } else {
                        assert(before(page[i - so_far.len()], k));
                    }
                }
            }
        }
    }
}

/// What two sequences joined hold is what either holds.
proof fn lemma_in_both<K>(left: Seq<K>, right: Seq<K>, key: K)
    ensures
        (left + right).contains(key) <==> left.contains(key) || right.contains(key),
{
    let both = left + right;
    if left.contains(key) {
        let i = choose|i: int| 0 <= i < left.len() && left[i] == key;
        assert(both[i] == key);
    }
    if right.contains(key) {
        let i = choose|i: int| 0 <= i < right.len() && right[i] == key;
        assert(both[left.len() + i] == key);
    }
    if both.contains(key) {
        let i = choose|i: int| 0 <= i < both.len() && both[i] == key;
        if i < left.len() {
            assert(left[i] == key);
        } else {
            assert(right[i - left.len()] == key);
        }
    }
}

/// Reading on from the last key of each page until a page is empty gives every key that is let
/// through exactly once, in order.
pub proof fn law_reading_to_the_end<K>(
    keys: Set<K>,
    before: spec_fn(K, K) -> bool,
    admits: spec_fn(K) -> bool,
    limit: nat,
    pages: Seq<Seq<K>>,
)
    requires
        orders(keys, before),
        forall|a: K, b: K|
            keys.contains(a) && keys.contains(b) && admits(a) && #[trigger] before(a, b) ==> admits(b),
        limit > 0,
        reads_on(keys, before, admits, limit, pages),
        until_empty(pages),
    ensures
        holds_all_in_order(keys, before, admits, joined(pages)),
{
    let full = pages.drop_last();
    let all = joined(pages);
    let n = pages.len() - 1;
    assert forall|i: int| 0 <= i < full.len() implies (#[trigger] full[i]).len() > 0 by {
        assert(full[i] == pages[i]);
    }
    lemma_reads_on(keys, before, admits, limit, pages);
    lemma_read_so_far(keys, before, admits, limit, full);
    assert(pages[n].len() == 0);
    assert(all =~= joined(full));
    assert forall|k: K| #[trigger] all.contains(k) <==> keys.contains(k) && admits(k) by {
        if all.contains(k) {
            let i = choose|i: int| 0 <= i < all.len() && all[i] == k;
            assert(keys.contains(all[i]) && admits(all[i]));
        } else if keys.contains(k) && admits(k) {
            assert(!pages[n].contains(k));
            if n > 0 {
                assert(full.last() == pages[n - 1]);
                assert(before(all[all.len() - 1], k));
                let after = |key: K| before(pages[n - 1].last(), key);
                assert(is_page(keys, before, after, limit, pages[n]));
                assert(after(k));
            }
            assert(false);
        }
    }
    assert forall|i: int, j: int|
        0 <= i < all.len() && 0 <= j < all.len() && i != j implies all[i] != all[j] by {
        assert(keys.contains(all[i]));
        if i < j {
            assert(before(all[i], all[j]));
        } else {
            assert(before(all[j], all[i]));
        }
        assert(!before(all[i], all[i]));
    }
}

/// What is picked out of each record can be picked out of the pages or out of what they join to.
proof fn lemma_joined_map<A, B>(pages: Seq<Seq<A>>, pick: spec_fn(A) -> B)
    ensures
        joined(pages).map_values(pick) == joined(
            pages.map_values(|page: Seq<A>| page.map_values(pick)),
        ),
    decreases pages.len(),
{
    let each = |page: Seq<A>| page.map_values(pick);
    let picked = pages.map_values(each);
    if pages.len() == 0 {
        assert(joined(pages).map_values(pick) =~= joined(picked));
    } else {
        lemma_joined_map(pages.drop_last(), pick);
        assert(picked.drop_last() =~= pages.drop_last().map_values(each));
        assert(picked.last() == pages.last().map_values(pick));
        assert(joined(pages).map_values(pick) =~= joined(picked));
    }
}

/// What holds of every record on every page holds of every record of what they join to.
proof fn lemma_joined_each<A>(pages: Seq<Seq<A>>, holds: spec_fn(A) -> bool)
    requires
        forall|i: int, j: int|
            0 <= i < pages.len() && 0 <= j < pages[i].len() ==> holds(#[trigger] pages[i][j]),
    ensures
        forall|j: int| 0 <= j < joined(pages).len() ==> holds(#[trigger] joined(pages)[j]),
    decreases pages.len(),
{
    if pages.len() > 0 {
        let rest = pages.drop_last();
        assert forall|i: int, j: int| 0 <= i < rest.len() && 0 <= j < rest[i].len() implies holds(
            #[trigger] rest[i][j],
        ) by {
            assert(rest[i][j] == pages[i][j]);
        }
        lemma_joined_each(rest, holds);
        assert forall|j: int| 0 <= j < joined(pages).len() implies holds(
            #[trigger] joined(pages)[j],
        ) by {
            if j >= joined(rest).len() {
                let n = pages.len() - 1;
                assert(joined(pages)[j] == pages[n][j - joined(rest).len()]);
            } else {
                assert(joined(pages)[j] == joined(rest)[j]);
            }
        }
    }
}

/// Listing on after the last proposal of a full page gives the proposals that come next, with none
/// skipped and none twice.
pub proof fn law_listing_on_proposals(
    dao: DaoView,
    block: BlockInfo,
    start: Option<u64>,
    limit: Option<u32>,
    more: Option<u32>,
    page: Seq<ProposalResponseView>,
    next: Seq<ProposalResponseView>,
)
    requires
        page.len() == page_limit(limit),
        page.len() > 0,
        is_proposal_page(dao, block, start, limit, page),
        is_proposal_page(dao, block, Some(page.last().id), more, next),
    ensures
        is_page(
            dao.proposals.dom(),
            ascending(),
            ids_after(start),
            page_limit(limit) + page_limit(more),
            shown_ids(page) + shown_ids(next),
        ),
{
    let keys = dao.proposals.dom();
    let ids = shown_ids(page);
    let admits = ids_after(start);
    let on = |key: u64| admits(key) && ascending()(ids.last(), key);
    law_page_orders(keys, Set::empty());
    assert(ids.last() == page.last().id);
    assert(admits(ids[ids.len() - 1]));
    lemma_page_admits(
        keys,
        ascending(),
        ids_after(Some(page.last().id)),
        on,
        page_limit(more),
        shown_ids(next),
    );
    law_next_page_follows(
        keys,
        ascending(),
        admits,
        page_limit(limit),
        page_limit(more),
        ids,
        shown_ids(next),
    );
}

/// The same holds of proposals listed from the last one back.
pub proof fn law_listing_back_proposals(
    dao: DaoView,
    block: BlockInfo,
    start: Option<u64>,
    limit: Option<u32>,
    more: Option<u32>,
    page: Seq<ProposalResponseView>,
    next: Seq<ProposalResponseView>,
)
    requires
        page.len() == page_limit(limit),
        page.len() > 0,
        is_reverse_proposal_page(dao, block, start, limit, page),
        is_reverse_proposal_page(dao, block, Some(page.last().id), more, next),
    ensures
        is_page(
            dao.proposals.dom(),
            descending(),
            ids_before(start),
            page_limit(limit) + page_limit(more),
            shown_ids(page) + shown_ids(next),
        ),
{
    let keys = dao.proposals.dom();
    let ids = shown_ids(page);
    let admits = ids_before(start);
    let on = |key: u64| admits(key) && descending()(ids.last(), key);
    law_page_orders(keys, Set::empty());
    assert(ids.last() == page.last().id);
    assert(admits(ids[ids.len() - 1]));
    lemma_page_admits(
        keys,
        descending(),
        ids_before(Some(page.last().id)),
        on,
        page_limit(more),
        shown_ids(next),
    );
    law_next_page_follows(
        keys,
        descending(),
        admits,
        page_limit(limit),
        page_limit(more),
        ids,
        shown_ids(next),
    );
}

/// Listing on after the last voter of a full page gives the votes that come next, with none skipped
/// and none twice.
pub proof fn law_listing_on_votes(
    dao: DaoView,
    proposal_id: u64,
    start: Option<Seq<char>>,
    limit: Option<u32>,
    more: Option<u32>,
    page: Seq<VoteInfoView>,
    next: Seq<VoteInfoView>,
)
    requires
        page.len() == page_limit(limit),
        page.len() > 0,
        is_vote_page(dao, proposal_id, start, limit, page),
        is_vote_page(dao, proposal_id, Some(page.last().voter), more, next),
    ensures
        is_page(
            voters_of(dao, proposal_id),
            by_text(),
            voters_after(start),
            page_limit(limit) + page_limit(more),
            shown_voters(page) + shown_voters(next),
        ),
{
    let keys = voters_of(dao, proposal_id);
    let voters = shown_voters(page);
    let admits = voters_after(start);
    let last = page.last().voter;
    let on = |key: Seq<char>| admits(key) && by_text()(voters.last(), key);
    law_page_orders(Set::empty(), keys);
    assert(voters.last() == last);
    assert(admits(voters[voters.len() - 1]));
    assert forall|k: Seq<char>| #[trigger] keys.contains(k) implies voters_after(Some(last))(k) == on(
        k,
    ) by {
        if text_before(last, k) {
            if let Some(first) = start {
                lemma_bytes_transitive(encode_utf8(first), encode_utf8(last), encode_utf8(k));
            }
        }
    }
    lemma_page_admits(
        keys,
        by_text(),
        voters_after(Some(last)),
        on,
        page_limit(more),
        shown_voters(next),
    );
    law_next_page_follows(
        keys,
        by_text(),
        admits,
        page_limit(limit),
        page_limit(more),
        voters,
        shown_voters(next),
    );
}

/// Where a page starts: where the listing starts, or after the last proposal of the page before.
pub open spec fn next_proposal_start(
    start: Option<u64>,
    pages: Seq<Seq<ProposalResponseView>>,
    i: int,
) -> Option<u64> {
    if i == 0 {
        start
    } else {
        Some(pages[i - 1].last().id)
    }
}

/// The pages with their identifiers alone.
pub open spec fn pages_of_ids(pages: Seq<Seq<ProposalResponseView>>) -> Seq<Seq<u64>> {
    pages.map_values(|page: Seq<ProposalResponseView>| shown_ids(page))
}

/// The identifiers of joined pages are the identifiers of the pages, joined; and pages that show
/// proposals join to one that does.
proof fn lemma_joined_proposals(
    dao: DaoView,
    block: BlockInfo,
    pages: Seq<Seq<ProposalResponseView>>,
)
    requires
        forall|i: int| 0 <= i < pages.len() ==> shows_proposals(dao, block, #[trigger] pages[i]),
    ensures
        shown_ids(joined(pages)) == joined(pages_of_ids(pages)),
        shows_proposals(dao, block, joined(pages)),
{
    let pick = |shown: ProposalResponseView| shown.id;
    let holds = |shown: ProposalResponseView|
        shown == shown_proposal(
            shown.id,
            dao.proposals[shown.id],
            block,
            dao.proposals[shown.id].total_weight,
        );
    lemma_joined_map(pages, pick);
    assert(shown_ids(joined(pages)) =~= joined(pages).map_values(pick));
    assert forall|i: int| 0 <= i < pages.len() implies #[trigger] pages_of_ids(pages)[i]
        == pages[i].map_values(pick) by {
        assert(shown_ids(pages[i]) =~= pages[i].map_values(pick));
    }
    assert(pages_of_ids(pages) =~= pages.map_values(
        |page: Seq<ProposalResponseView>| page.map_values(pick),
    ));
    assert forall|i: int, j: int| 0 <= i < pages.len() && 0 <= j < pages[i].len() implies holds(
        #[trigger] pages[i][j],
    ) by {
        assert(shows_proposals(dao, block, pages[i]));
    }
    lemma_joined_each(pages, holds);
    assert forall|i: int| 0 <= i < joined(pages).len() implies #[trigger] joined(pages)[i]
        == shown_proposal(
        joined(pages)[i].id,
        dao.proposals[joined(pages)[i].id],
        block,
        dao.proposals[joined(pages)[i].id].total_weight,
    ) by {
        assert(holds(joined(pages)[i]));
    }
}

/// Listing proposals on, page by page until one is empty, shows every proposal after the start
/// exactly once, in the order in which they were made.
pub proof fn law_listing_all_proposals(
    dao: DaoView,
    block: BlockInfo,
    start: Option<u64>,
    limit: Option<u32>,
    pages: Seq<Seq<ProposalResponseView>>,
)
    requires
        page_limit(limit) > 0,
        until_empty(pages),
        forall|i: int|
            0 <= i < pages.len() ==> is_proposal_page(
                dao,
                block,
                next_proposal_start(start, pages, i),
                limit,
                #[trigger] pages[i],
            ),
    ensures
        holds_all_in_order(
            dao.proposals.dom(),
            ascending(),
            ids_after(start),
            shown_ids(joined(pages)),
        ),
        shows_proposals(dao, block, joined(pages)),
{
    let keys = dao.proposals.dom();
    let ids = pages_of_ids(pages);
    let size = page_limit(limit);
    law_page_orders(keys, Set::empty());
    lemma_joined_proposals(dao, block, pages);
    assert forall|i: int| 0 <= i < ids.len() implies (#[trigger] ids[i]).len() == pages[i].len() by {
    }
    assert(until_empty(ids));
    assert forall|i: int| 0 <= i < ids.len() implies is_page(
        keys,
        ascending(),
        if i == 0 {
            ids_after(start)
        } else {
            |key: u64| ascending()(ids[i - 1].last(), key)
        },
        size,
        #[trigger] ids[i],
    ) by {
        assert(is_proposal_page(dao, block, next_proposal_start(start, pages, i), limit, pages[i]));
        if i > 0 {
            assert(pages[i - 1].len() > 0);
            assert(ids[i - 1].last() == pages[i - 1].last().id);
            lemma_page_admits(
                keys,
                ascending(),
                ids_after(next_proposal_start(start, pages, i)),
                |key: u64| ascending()(ids[i - 1].last(), key),
                size,
                ids[i],
            );
        }
    }
    law_reading_to_the_end(keys, ascending(), ids_after(start), size, ids);
}

/// Listing proposals back, page by page until one is empty, shows every proposal before the start
/// exactly once, the latest first.
pub proof fn law_listing_back_all_proposals(
    dao: DaoView,
    block: BlockInfo,
    start: Option<u64>,
    limit: Option<u32>,
    pages: Seq<Seq<ProposalResponseView>>,
)
    requires
        page_limit(limit) > 0,
        until_empty(pages),
        forall|i: int|
            0 <= i < pages.len() ==> is_reverse_proposal_page(
                dao,
                block,
                next_proposal_start(start, pages, i),
                limit,
                #[trigger] pages[i],
            ),
    ensures
        holds_all_in_order(
            dao.proposals.dom(),
            descending(),
            ids_before(start),
            shown_ids(joined(pages)),
        ),
        shows_proposals(dao, block, joined(pages)),
{
    let keys = dao.proposals.dom();
    let ids = pages_of_ids(pages);
    let size = page_limit(limit);
    law_page_orders(keys, Set::empty());
    lemma_joined_proposals(dao, block, pages);
    assert forall|i: int| 0 <= i < ids.len() implies (#[trigger] ids[i]).len() == pages[i].len() by {
    }
    assert(until_empty(ids));
    assert forall|i: int| 0 <= i < ids.len() implies is_page(
        keys,
        descending(),
        if i == 0 {
            ids_before(start)
        } else {
            |key: u64| descending()(ids[i - 1].last(), key)
        },
        size,
        #[trigger] ids[i],
    ) by {
        assert(is_reverse_proposal_page(
            dao,
            block,
            next_proposal_start(start, pages, i),
            limit,
            pages[i],
        ));
        if i > 0 {
            assert(pages[i - 1].len() > 0);
            assert(ids[i - 1].last() == pages[i - 1].last().id);
            lemma_page_admits(
                keys,
                descending(),
                ids_before(next_proposal_start(start, pages, i)),
                |key: u64| descending()(ids[i - 1].last(), key),
                size,
                ids[i],
            );
        }
    }
    law_reading_to_the_end(keys, descending(), ids_before(start), size, ids);
}

/// Where a page starts: where the listing starts, or after the last voter of the page before.
pub open spec fn next_vote_start(
    start: Option<Seq<char>>,
    pages: Seq<Seq<VoteInfoView>>,
    i: int,
) -> Option<Seq<char>> {
    if i == 0 {
        start
    } else {
        Some(pages[i - 1].last().voter)
    }
}

/// Listing the votes on a proposal on, page by page until one is empty, shows the vote of every
/// account after the start exactly once, in the order of the accounts.
pub proof fn law_listing_all_votes(
    dao: DaoView,
    proposal_id: u64,
    start: Option<Seq<char>>,
    limit: Option<u32>,
    pages: Seq<Seq<VoteInfoView>>,
)
    requires
        page_limit(limit) > 0,
        until_empty(pages),
        forall|i: int|
            0 <= i < pages.len() ==> is_vote_page(
                dao,
                proposal_id,
                next_vote_start(start, pages, i),
                limit,
                #[trigger] pages[i],
            ),
    ensures
        holds_all_in_order(
            voters_of(dao, proposal_id),
            by_text(),
            voters_after(start),
            shown_voters(joined(pages)),
        ),
        forall|i: int|
            0 <= i < joined(pages).len() ==> shows_vote(
                dao,
                proposal_id,
                #[trigger] joined(pages)[i],
            ),
{
    let keys = voters_of(dao, proposal_id);
    let pick = |shown: VoteInfoView| shown.voter;
    let each = |page: Seq<VoteInfoView>| page.map_values(pick);
    let voters = pages.map_values(each);
    let size = page_limit(limit);
    let holds = |shown: VoteInfoView| shows_vote(dao, proposal_id, shown);
    law_page_orders(Set::empty(), keys);
    lemma_joined_map(pages, pick);
    assert(shown_voters(joined(pages)) =~= joined(pages).map_values(pick));
    assert forall|i: int, j: int| 0 <= i < pages.len() && 0 <= j < pages[i].len() implies holds(
        #[trigger] pages[i][j],
    ) by {
        assert(is_vote_page(
            dao,
            proposal_id,
            next_vote_start(start, pages, i),
            limit,
            pages[i],
        ));
    }
    lemma_joined_each(pages, holds);
    assert forall|i: int| 0 <= i < joined(pages).len() implies shows_vote(
        dao,
        proposal_id,
        #[trigger] joined(pages)[i],
    ) by {
        assert(holds(joined(pages)[i]));
    }
    assert forall|i: int| 0 <= i < voters.len() implies #[trigger] voters[i] == shown_voters(pages[i])
        && voters[i].len() == pages[i].len() by {
        assert(shown_voters(pages[i]) =~= pages[i].map_values(pick));
    }
    assert(until_empty(voters));
    assert forall|a: Seq<char>, b: Seq<char>|
        keys.contains(a) && keys.contains(b) && voters_after(start)(a) && #[trigger] by_text()(a, b)
            implies voters_after(start)(b) by {
        if let Some(first) = start {
            lemma_bytes_transitive(encode_utf8(first), encode_utf8(a), encode_utf8(b));
        }
    }
    assert forall|i: int| 0 <= i < voters.len() implies is_page(
        keys,
        by_text(),
        if i == 0 {
            voters_after(start)
        } else {
            |key: Seq<char>| by_text()(voters[i - 1].last(), key)
        },
        size,
        #[trigger] voters[i],
    ) by {
        assert(is_vote_page(
            dao,
            proposal_id,
            next_vote_start(start, pages, i),
            limit,
            pages[i],
        ));
        if i > 0 {
            assert(pages[i - 1].len() > 0);
            assert(voters[i - 1].last() == pages[i - 1].last().voter);
            lemma_page_admits(
                keys,
                by_text(),
                voters_after(next_vote_start(start, pages, i)),
                |key: Seq<char>| by_text()(voters[i - 1].last(), key),
                size,
                voters[i],
            );
        }
    }
    law_reading_to_the_end(keys, by_text(), voters_after(start), size, voters);
}

/// A query is answered with what the query for its message returns, error or answer, in the variant
/// for that message. So there is only one answer.
pub proof fn law_query_is_its_helper(
    dao: DaoView,
    env: Env,
    msg: QueryMsg,
    answers: Answers,
    response: Result<QueryResponseView, PlatformErrorView>,
)
    requires
        is_query_result(dao, env, msg, answers, response),
    ensures
        ({
            let supply = number_result(answers.total_supply);
            let address = std_result(answers.address);
            match msg {
                QueryMsg::Threshold => response == answered(
                    threshold_result(dao, supply),
                    |value: ThresholdResponse| QueryResponseView::Threshold(value),
                ),
                QueryMsg::Proposal { proposal_id } => response == answered(
                    proposal_result(dao, env.block, proposal_id, supply),
                    |value: ProposalResponseView| QueryResponseView::Proposal(value),
                ),
                QueryMsg::Vote { proposal_id, voter } => response == answered(
                    vote_query_result(dao, proposal_id, voter@, address),
                    |value: Option<VoteInfoView>| QueryResponseView::Vote(value),
                ),
                QueryMsg::ListProposals { start_after, limit } => forall|
                    page: Seq<ProposalResponseView>,
                | #[trigger]
                    is_proposal_page(dao, env.block, start_after, limit, page) ==> response == Ok::<
                        _,
                        PlatformErrorView,
                    >(QueryResponseView::Proposals(page)),
                QueryMsg::ReverseProposals { start_before, limit } => forall|
                    page: Seq<ProposalResponseView>,
                | #[trigger]
                    is_reverse_proposal_page(dao, env.block, start_before, limit, page) ==> response
                        == Ok::<_, PlatformErrorView>(QueryResponseView::Proposals(page)),
                QueryMsg::ListVotes { proposal_id, start_after, limit } => forall|
                    list: Result<Seq<VoteInfoView>, PlatformErrorView>,
                | #[trigger]
                    is_vote_list(dao, proposal_id, option_view(start_after), address, limit, list)
                        ==> response == answered(
                        list,
                        |value: Seq<VoteInfoView>| QueryResponseView::Votes(value),
                    ),
                QueryMsg::Voter { .. } => response == answered(
                    voter_result(dao, address, answers.balance),
                    |value: Option<u128>| QueryResponseView::Voter(value),
                ),
                QueryMsg::AllBalances => response == answered(
                    all_balances_result(
                        dao,
                        coins_result(answers.native_balances),
                        answers.token_balances@,
                    ),
                    |value: AllBalancesView| QueryResponseView::AllBalances(value),
                ),
                QueryMsg::GetConfig => response == answered(
                    dao.config_or_missing(),
                    |value: ConfigView| QueryResponseView::Config(value),
                ),
                QueryMsg::Cw20TokenList => response == answered(
                    dao.tokens_or_missing(),
                    |value: Seq<Seq<char>>| QueryResponseView::TokenList(value),
                ),
            }
        }),
{
    match msg {
        QueryMsg::ListProposals { start_after, limit } => {
            let shown = response->Ok_0->Proposals_0;
            assert forall|page: Seq<ProposalResponseView>| #[trigger]
                is_proposal_page(dao, env.block, start_after, limit, page) implies page == shown by {
                law_proposal_page_is_unique(dao, env.block, start_after, limit, page, shown);
            }
        },
        QueryMsg::ReverseProposals { start_before, limit } => {
            let shown = response->Ok_0->Proposals_0;
            assert forall|page: Seq<ProposalResponseView>| #[trigger]
                is_reverse_proposal_page(dao, env.block, start_before, limit, page) implies page
                == shown by {
                law_proposal_page_is_unique(dao, env.block, start_before, limit, page, shown);
            }
        },
        QueryMsg::ListVotes { proposal_id, start_after, limit } => {
            let asked = option_view(start_after);
            let address = std_result(answers.address);
            assert forall|list: Result<Seq<VoteInfoView>, PlatformErrorView>| #[trigger]
                is_vote_list(dao, proposal_id, asked, address, limit, list) implies response
                == answered(list, |value: Seq<VoteInfoView>| QueryResponseView::Votes(value)) by {
                if let Ok(start) = votes_start(asked, address) {
                    law_vote_page_is_unique(
                        dao,
                        proposal_id,
                        start,
                        limit,
                        list->Ok_0,
                        response->Ok_0->Votes_0,
                    );
                }
            }
        },
        _ => {},
    }
}

} // verus!
