//! The slot that holds the current access token.
//!
//! The cache is a plain value. Reading borrows it and replacing borrows it
//! exclusively, so no read can overlap a replacement: holders that share
//! the cache between tasks or threads put it behind a lock, and their
//! reads and replacements then reach the cache one at a time, in some
//! order. The laws at the end of this file say what the reads return in
//! every such order.

use crate::authentication::get_token::client_credentials_flow::{AccessToken, Response};
use vstd::prelude::*;

verus! {

/// The one access token that requests are signed with. It is only ever
/// read as a whole and replaced as a whole.
pub struct TokenCache {
    current: Response,
}

impl View for TokenCache {
    type V = AccessToken;

    closed spec fn view(&self) -> AccessToken {
        self.current@
    }
}

impl TokenCache {
    /// A cache that holds `initial`.
    pub fn new(initial: Response) -> (cache: TokenCache)
        ensures
            cache@ == initial@,
    {
        TokenCache { current: initial }
    }

    /// A copy of the token that the cache holds.
    pub fn read(&self) -> (token: Response)
        ensures
            token@ == self@,
    {
        self.current.clone()
    }

    /// Puts `new` in the place of the token that the cache held.
    pub fn replace(&mut self, new: Response)
        ensures
            final(self)@ == applied(old(self)@, CacheOp::Replace(new@)),
            final(self)@ == new@,
    {
        self.current = new;
    }
}

/// One use of the cache.
pub enum CacheOp {
    Read,
    Replace(AccessToken),
}

/// What a cache that held `held` holds after `op`.
pub open spec fn applied(held: AccessToken, op: CacheOp) -> AccessToken {
    match op {
        CacheOp::Read => held,
        CacheOp::Replace(token) => token,
    }
}

/// What the cache holds once `ops` have run in their order on a cache
/// that held `initial`.
pub open spec fn held_after(initial: AccessToken, ops: Seq<CacheOp>) -> AccessToken
    decreases ops.len(),
{
    if ops.len() == 0 {
        initial
    } else {
        applied(held_after(initial, ops.drop_last()), ops.last())
    }
}

/// What the read at position `at` of `ops` returns.
pub open spec fn seen_at(initial: AccessToken, ops: Seq<CacheOp>, at: int) -> AccessToken {
    held_after(initial, ops.take(at))
}

/// Whether `token` is what the last replacement before position `at` put in
/// the cache, or the initial token where nothing was replaced before `at`.
pub open spec fn last_commit_before(
    initial: AccessToken,
    ops: Seq<CacheOp>,
    at: int,
    token: AccessToken,
) -> bool {
    ||| token == initial && forall|k: int| 0 <= k < at ==> #[trigger] ops[k] is Read
    ||| exists|j: int|
        0 <= j < at && #[trigger] ops[j] == CacheOp::Replace(token) && forall|k: int|
            j < k < at ==> #[trigger] ops[k] is Read
}

/// In whatever order reads and replacements reach the cache, a read returns
/// the token of the last replacement before it, whole, or the initial token
/// where there was none: never a mix of two tokens, never an older one.
pub proof fn lemma_read_sees_last_commit(initial: AccessToken, ops: Seq<CacheOp>, at: int)
    requires
        0 <= at <= ops.len(),
    ensures
        last_commit_before(initial, ops, at, seen_at(initial, ops, at)),
    decreases at,
{
    let before = ops.take(at);
    if at == 0 {
    } else {
        assert(before.last() == ops[at - 1]);
        assert(before.drop_last() == ops.take(at - 1));
        match ops[at - 1] {
            CacheOp::Read => {
                lemma_read_sees_last_commit(initial, ops, at - 1);
                let token = seen_at(initial, ops, at - 1);
                assert(seen_at(initial, ops, at) == token);
                if token == initial && forall|k: int| 0 <= k < at - 1 ==> #[trigger] ops[k] is Read {
                    assert forall|k: int| 0 <= k < at implies #[trigger] ops[k] is Read by {}
                } else {
                    let j: int = choose|j: int|
                        0 <= j < at - 1 && #[trigger] ops[j] == CacheOp::Replace(token)
                            && forall|k: int| j < k < at - 1 ==> #[trigger] ops[k] is Read;
                    assert forall|k: int| j < k < at implies #[trigger] ops[k] is Read by {}
                    assert(0 <= j < at && ops[j] == CacheOp::Replace(token));
                }
            },
            CacheOp::Replace(token) => {
                assert(seen_at(initial, ops, at) == token);
                assert(0 <= at - 1 < at && ops[at - 1] == CacheOp::Replace(token));
            },
        }
    }
}

/// With a single replacement among the reads, at position `swap`, every
/// read before it returns the initial token and every read after it the new
/// one.
pub proof fn lemma_single_replace(
    initial: AccessToken,
    new: AccessToken,
    ops: Seq<CacheOp>,
    swap: int,
    at: int,
)
    requires
        0 <= swap < ops.len(),
        0 <= at < ops.len(),
        ops[swap] == CacheOp::Replace(new),
        forall|k: int| 0 <= k < ops.len() && k != swap ==> #[trigger] ops[k] is Read,
        at != swap,
    ensures
        seen_at(initial, ops, at) == (if at < swap {
            initial
        } else {
            new
        }),
{
    lemma_read_sees_last_commit(initial, ops, at);
    let token = seen_at(initial, ops, at);
    if at < swap {
        if token != initial {
            let j: int = choose|j: int|
                0 <= j < at && #[trigger] ops[j] == CacheOp::Replace(token) && forall|k: int|
                    j < k < at ==> #[trigger] ops[k] is Read;
            assert(ops[j] is Read);
        }
    } else {
        if token == initial && forall|k: int| 0 <= k < at ==> #[trigger] ops[k] is Read {
            assert(ops[swap] is Read);
        } else {
            let j: int = choose|j: int|
                0 <= j < at && #[trigger] ops[j] == CacheOp::Replace(token) && forall|k: int|
                    j < k < at ==> #[trigger] ops[k] is Read;
            if j != swap {
                assert(ops[j] is Read);
            }
        }
    }
}

} // verus!
