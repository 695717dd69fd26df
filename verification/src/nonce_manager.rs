//! The decisions of a middleware that calculates nonces locally, useful for signing
//! multiple consecutive transactions without waiting for them to hit the mempool.
//!
//! The state lives here; whoever drives the manager performs the calls to the node
//! (fetching the on-chain transaction count, sending transactions) and hands their
//! results back to the methods below, which say what to do next.
use vstd::prelude::*;

verus! {

/// Number of sent transactions after which the local nonce is resynced with the chain,
/// when no other count was configured.
pub const DEFAULT_TX_COUNT_FOR_RESYNC: u64 = 10;

/// Thrown when an error happens at the Nonce Manager
#[derive(Debug)]
pub enum NonceManagerError<E> {
    /// Thrown when the internal middleware errors
    MiddlewareError(E),
}

/// The state of a nonce manager, as seen in contracts.
#[derive(Clone, Copy, Debug)]
pub struct NonceState {
    pub initialized: bool,
    pub nonce: u64,
    pub tx_count_for_resync: Option<u64>,
    pub txs_since_resync: u64,
    pub address: [u8; 20],
}

/// Nonce manager for the account `address`: the nonce it hands out next, whether that
/// nonce has been read from the chain yet, and the counter that decides when to resync.
#[derive(Debug)]
pub struct NonceManagerMiddleware {
    initialized: bool,
    nonce: u64,
    tx_count_for_resync: Option<u64>,
    txs_since_resync: u64,
    address: [u8; 20],
}

impl View for NonceManagerMiddleware {
    type V = NonceState;

    closed spec fn view(&self) -> NonceState {
        NonceState {
            initialized: self.initialized,
            nonce: self.nonce,
            tx_count_for_resync: self.tx_count_for_resync,
            txs_since_resync: self.txs_since_resync,
            address: self.address,
        }
    }
}

/// What to do before a nonce can be used.
#[derive(Clone, Copy, Debug, PartialEq, Eq, Structural)]
pub enum NonceStep {
    /// The nonce is known locally: this is the current one.
    Ready(u64),
    /// The nonce has not been read from the chain yet: fetch the account's transaction
    /// count and hand it to `record_onchain_nonce`.
    FetchTransactionCount,
}

/// What to do after the node accepted a transaction.
#[derive(Clone, Copy, Debug, PartialEq, Eq, Structural)]
pub enum ResyncDecision {
    /// Fetch the account's on-chain transaction count and hand it to `complete_resync`.
    Resync,
    /// Keep the local nonce; this many transactions are left until the next resync.
    Continue { txs_until_resync: u64 },
}

/// What to do after the node refused a transaction, once the on-chain transaction
/// count is known.
#[derive(Clone, Copy, Debug, PartialEq, Eq, Structural)]
pub enum FailedSendAction {
    /// The local nonce was out of step with the chain and now holds this on-chain
    /// nonce: set it on the transaction and send it again.
    Resend(u64),
    /// The local nonce matched the chain: the node's error stands.
    PropagateError,
}

/// The nonce after `nonce`: the atomic counter it mirrors wraps around.
pub open spec fn successor(nonce: u64) -> u64 {
    if nonce == u64::MAX {
        0
    } else {
        (nonce + 1) as u64
    }
}

/// The resync count in effect for a state.
pub open spec fn resync_count(s: NonceState) -> u64 {
    match s.tx_count_for_resync {
        Some(count) => count,
        None => DEFAULT_TX_COUNT_FOR_RESYNC,
    }
}

/// The state after handing out a nonce.
pub open spec fn after_next(s: NonceState) -> NonceState {
    NonceState { nonce: successor(s.nonce), ..s }
}

/// The state after reading the on-chain transaction count for the first time.
pub open spec fn after_initialization(s: NonceState, onchain: u64) -> NonceState {
    NonceState { nonce: onchain, initialized: true, ..s }
}

/// The step `initialize_nonce` reports for a state.
pub open spec fn initialization_step(s: NonceState) -> NonceStep {
    if s.initialized {
        NonceStep::Ready(s.nonce)
    } else {
        NonceStep::FetchTransactionCount
    }
}

/// The decision and state after the node accepted a transaction. The counter is read
/// and incremented, then, unless a resync is due, stored back as it was read.
pub open spec fn after_sent(s: NonceState) -> (ResyncDecision, NonceState) {
    let count = resync_count(s);
    if s.txs_since_resync >= count {
        (
            ResyncDecision::Resync,
            NonceState {
                txs_since_resync: if s.txs_since_resync == u64::MAX {
                    0
                } else {
                    (s.txs_since_resync + 1) as u64
                },
                ..s
            },
        )
    } else {
        (ResyncDecision::Continue { txs_until_resync: (count - s.txs_since_resync) as u64 }, s)
    }
}

/// The state after a resync with the on-chain transaction count.
pub open spec fn after_resync(s: NonceState, onchain: u64) -> NonceState {
    NonceState { nonce: onchain, txs_since_resync: 0, ..s }
}

/// The action and state after a refused transaction, given the on-chain count.
pub open spec fn after_failed_send(s: NonceState, onchain: u64) -> (FailedSendAction, NonceState) {
    if onchain != s.nonce {
        (FailedSendAction::Resend(onchain), NonceState { nonce: onchain, ..s })
    } else {
        (FailedSendAction::PropagateError, s)
    }
}

/// The nonces that `count` successive calls of `next` hand out from state `s`.
pub open spec fn nonces_handed_out(s: NonceState, count: nat) -> Seq<u64>
    decreases count,
{
    if count == 0 {
        Seq::empty()
    } else {
        seq![s.nonce] + nonces_handed_out(after_next(s), (count - 1) as nat)
    }
}

/// Successive calls of `next` hand out consecutive nonces, starting at the current one
/// (as long as the counter does not wrap around).
pub proof fn lemma_next_hands_out_consecutive_nonces(s: NonceState, count: nat)
    requires
        s.nonce + count <= u64::MAX + 1,
    ensures
        nonces_handed_out(s, count).len() == count,
        forall|i: int| 0 <= i < count ==> #[trigger] nonces_handed_out(s, count)[i] == s.nonce + i,
    decreases count,
{
    if count > 0 {
        let t = after_next(s);
        lemma_next_hands_out_consecutive_nonces(t, (count - 1) as nat);
        assert forall|i: int| 0 <= i < count implies #[trigger] nonces_handed_out(s, count)[i] == s.nonce + i by {
            if i > 0 {
                assert(nonces_handed_out(s, count)[i] == nonces_handed_out(t, (count - 1) as nat)[i - 1]);
            }
        }
    }
}

/// A fresh manager asks for the on-chain transaction count; once it is recorded,
/// the manager reports it as the current nonce and hands it out first, then the one after.
pub proof fn lemma_first_nonce_comes_from_chain(address: [u8; 20], onchain: u64)
    ensures
        ({
            let fresh = NonceState {
                initialized: false,
                nonce: 0,
                tx_count_for_resync: None,
                txs_since_resync: 0,
                address,
            };
            let ready = after_initialization(fresh, onchain);
            &&& initialization_step(fresh) == NonceStep::FetchTransactionCount
            &&& initialization_step(ready) == NonceStep::Ready(onchain)
            &&& ready.nonce == onchain
            &&& initialization_step(after_next(ready)) == NonceStep::Ready(successor(onchain))
        }),
{
}

/// Once initialized, the manager stays initialized through every operation.
pub proof fn lemma_initialized_stays_initialized(s: NonceState, onchain: u64)
    requires
        s.initialized,
    ensures
        after_next(s).initialized,
        after_initialization(s, onchain).initialized,
        after_sent(s).1.initialized,
        after_resync(s, onchain).initialized,
        after_failed_send(s, onchain).1.initialized,
{
}

/// Every operation keeps the account address.
pub proof fn lemma_address_is_kept(s: NonceState, onchain: u64)
    ensures
        after_next(s).address == s.address,
        after_initialization(s, onchain).address == s.address,
        after_sent(s).1.address == s.address,
        after_resync(s, onchain).address == s.address,
        after_failed_send(s, onchain).1.address == s.address,
{
}

/// After a refused transaction the internal nonce equals the on-chain nonce, whichever
/// action is taken; the transaction is resent exactly when the two differed.
pub proof fn lemma_failed_send_adopts_onchain_nonce(s: NonceState, onchain: u64)
    ensures
        after_failed_send(s, onchain).1.nonce == onchain,
        (after_failed_send(s, onchain).0 == FailedSendAction::Resend(onchain)) <==> s.nonce != onchain,
        after_failed_send(s, onchain).0 == FailedSendAction::PropagateError ==> after_failed_send(
            s,
            onchain,
        ).1 == s,
{
}

/// A resync takes the on-chain nonce and restarts the count of transactions.
pub proof fn lemma_resync_takes_onchain_nonce(s: NonceState, onchain: u64)
    ensures
        after_resync(s, onchain).nonce == onchain,
        after_resync(s, onchain).txs_since_resync == 0,
        initialization_step(after_resync(s, onchain)) == (if s.initialized {
            NonceStep::Ready(onchain)
        } else {
            NonceStep::FetchTransactionCount
        }),
{
}

/// The resync counter of a manager with the default resync count is at rest.
pub open spec fn resync_counter_at_rest(s: NonceState) -> bool {
    s.tx_count_for_resync is None && s.txs_since_resync == 0
}

/// An accepted transaction stores the resync counter back as it was read, so a manager
/// whose counter is at rest (as every manager is from `new` on, since no operation sets a
/// resync count) never resyncs after a successful send: it always reports the default
/// count of transactions left, and its state is unchanged. Every operation keeps the
/// counter at rest.
pub proof fn lemma_resync_counter_stays_at_rest(s: NonceState, onchain: u64)
    requires
        resync_counter_at_rest(s),
    ensures
        after_sent(s) == (ResyncDecision::Continue { txs_until_resync: DEFAULT_TX_COUNT_FOR_RESYNC }, s),
        resync_counter_at_rest(after_next(s)),
        resync_counter_at_rest(after_initialization(s, onchain)),
        resync_counter_at_rest(after_sent(s).1),
        resync_counter_at_rest(after_resync(s, onchain)),
        resync_counter_at_rest(after_failed_send(s, onchain).1),
{
}

/// Handing out a nonce advances the nonce by one (wrapping around at `u64::MAX`) and
/// changes nothing else: in particular it does not initialize the manager, so an
/// uninitialized manager still asks for the on-chain transaction count afterwards.
pub proof fn lemma_next_only_advances_the_nonce(s: NonceState)
    ensures
        after_next(s).initialized == s.initialized,
        after_next(s).address == s.address,
        after_next(s).tx_count_for_resync == s.tx_count_for_resync,
        after_next(s).txs_since_resync == s.txs_since_resync,
        s.nonce < u64::MAX ==> after_next(s).nonce == s.nonce + 1,
        s.nonce == u64::MAX ==> after_next(s).nonce == 0,
        !s.initialized ==> initialization_step(after_next(s)) == NonceStep::FetchTransactionCount,
{
}

/// `initialize_nonce` reports the current nonce exactly when the manager has been
/// initialized, and asks for the on-chain transaction count otherwise.
pub proof fn lemma_initialization_step_follows_the_flag(s: NonceState)
    ensures
        s.initialized ==> initialization_step(s) == NonceStep::Ready(s.nonce),
        !s.initialized ==> initialization_step(s) == NonceStep::FetchTransactionCount,
{
}

/// Recording the on-chain transaction count sets the nonce to it and marks the manager
/// initialized, and changes nothing else.
pub proof fn lemma_initialization_takes_the_onchain_count(s: NonceState, onchain: u64)
    ensures
        after_initialization(s, onchain).nonce == onchain,
        after_initialization(s, onchain).initialized,
        after_initialization(s, onchain).address == s.address,
        after_initialization(s, onchain).tx_count_for_resync == s.tx_count_for_resync,
        after_initialization(s, onchain).txs_since_resync == s.txs_since_resync,
{
}

/// The resync count is the configured one, or 10 when none is configured.
pub proof fn lemma_resync_count_defaults_to_ten(s: NonceState)
    ensures
        s.tx_count_for_resync matches Some(c) ==> resync_count(s) == c,
        s.tx_count_for_resync is None ==> resync_count(s) == 10,
{
}

/// After an accepted transaction a resync is due exactly when the counter has reached
/// the resync count; otherwise the number of transactions left is the difference and
/// the state is unchanged. When a resync is due only the counter moves, by one
/// (wrapping around).
pub proof fn lemma_sent_transaction_decision(s: NonceState)
    ensures
        (after_sent(s).0 == ResyncDecision::Resync) <==> s.txs_since_resync >= resync_count(s),
        s.txs_since_resync < resync_count(s) ==> after_sent(s).0 == (ResyncDecision::Continue {
            txs_until_resync: (resync_count(s) - s.txs_since_resync) as u64,
        }) && after_sent(s).1 == s,
        s.txs_since_resync >= resync_count(s) ==> {
            &&& after_sent(s).1.nonce == s.nonce
            &&& after_sent(s).1.initialized == s.initialized
            &&& after_sent(s).1.address == s.address
            &&& after_sent(s).1.tx_count_for_resync == s.tx_count_for_resync
            &&& (s.txs_since_resync < u64::MAX ==> after_sent(s).1.txs_since_resync == s.txs_since_resync + 1)
            &&& (s.txs_since_resync == u64::MAX ==> after_sent(s).1.txs_since_resync == 0)
        },
{
}

/// A resync sets the nonce to the on-chain count and the counter to zero, and changes
/// nothing else.
pub proof fn lemma_resync_changes_nonce_and_counter(s: NonceState, onchain: u64)
    ensures
        after_resync(s, onchain).nonce == onchain,
        after_resync(s, onchain).txs_since_resync == 0,
        after_resync(s, onchain).initialized == s.initialized,
        after_resync(s, onchain).address == s.address,
        after_resync(s, onchain).tx_count_for_resync == s.tx_count_for_resync,
{
}

/// After a refused transaction: when the on-chain nonce equals the internal one the
/// node's error is propagated and the state is unchanged; otherwise the transaction is
/// resent with exactly the on-chain nonce, which becomes the internal nonce, and nothing
/// else changes.
pub proof fn lemma_failed_send_resends_only_on_mismatch(s: NonceState, onchain: u64)
    ensures
        s.nonce == onchain ==> after_failed_send(s, onchain).0 == FailedSendAction::PropagateError,
        s.nonce == onchain ==> after_failed_send(s, onchain).1 == s,
        s.nonce != onchain ==> after_failed_send(s, onchain).0 == FailedSendAction::Resend(onchain),
        s.nonce != onchain ==> {
            &&& after_failed_send(s, onchain).1.nonce == onchain
            &&& after_failed_send(s, onchain).1.initialized == s.initialized
            &&& after_failed_send(s, onchain).1.address == s.address
            &&& after_failed_send(s, onchain).1.tx_count_for_resync == s.tx_count_for_resync
            &&& after_failed_send(s, onchain).1.txs_since_resync == s.txs_since_resync
        },
{
}

impl NonceManagerMiddleware {
    /// Instantiates the nonce manager with a 0 nonce. The `address` should be the
    /// address which you'll be sending transactions from
    pub fn new(address: [u8; 20]) -> (manager: Self)
        ensures
            manager@ == (NonceState {
                initialized: false,
                nonce: 0,
                tx_count_for_resync: None,
                txs_since_resync: 0,
                address,
            }),
    {
        NonceManagerMiddleware {
            initialized: false,
            nonce: 0,
            tx_count_for_resync: None,
            txs_since_resync: 0,
            address,
        }
    }

    /// The address the managed transactions are sent from.
    pub fn address(&self) -> (address: [u8; 20])
        ensures
            address == self@.address,
    {
        self.address
    }

    /// Returns the next nonce to be used
    pub fn next(&mut self) -> (nonce: u64)
        ensures
            nonce == old(self)@.nonce,
            final(self)@ == after_next(old(self)@),
            final(self)@.initialized == old(self)@.initialized,
            final(self)@.address == old(self)@.address,
            final(self)@.tx_count_for_resync == old(self)@.tx_count_for_resync,
            final(self)@.txs_since_resync == old(self)@.txs_since_resync,
            old(self)@.nonce < u64::MAX ==> final(self)@.nonce == old(self)@.nonce + 1,
            old(self)@.nonce == u64::MAX ==> final(self)@.nonce == 0,
    {
        let nonce = self.nonce;
        self.nonce = self.nonce.wrapping_add(1);
        nonce
    }

    /// The number of sent transactions after which the nonce is resynced.
    pub fn get_tx_count_for_resync(&self) -> (count: u64)
        ensures
            count == resync_count(self@),
            self@.tx_count_for_resync matches Some(c) ==> count == c,
            self@.tx_count_for_resync is None ==> count == 10,
    {
        match self.tx_count_for_resync {
            Some(count) => count,
            None => DEFAULT_TX_COUNT_FOR_RESYNC,
        }
    }

    /// The current nonce once it has been read from the chain; otherwise the request to
    /// read it.
    pub fn initialize_nonce(&self) -> (step: NonceStep)
        ensures
            step == initialization_step(self@),
            self@.initialized ==> step == NonceStep::Ready(self@.nonce),
            !self@.initialized ==> step == NonceStep::FetchTransactionCount,
    {
        if self.initialized {
            NonceStep::Ready(self.nonce)
        } else {
            NonceStep::FetchTransactionCount
        }
    }

    /// Stores the account's on-chain transaction count as the nonce, the first time
    /// the manager is used, and returns it.
    pub fn record_onchain_nonce(&mut self, onchain: u64) -> (nonce: u64)
        ensures
            nonce == onchain,
            final(self)@ == after_initialization(old(self)@, onchain),
            final(self)@.nonce == onchain,
            final(self)@.initialized,
            final(self)@.address == old(self)@.address,
            final(self)@.tx_count_for_resync == old(self)@.tx_count_for_resync,
            final(self)@.txs_since_resync == old(self)@.txs_since_resync,
    {
        self.nonce = onchain;
        self.initialized = true;
        onchain
    }

    /// The nonce for a transaction that carries none: the manager hands out its next
    /// nonce, after storing the on-chain transaction count `onchain` when this is the
    /// first time it is used (the count is fetched when `initialize_nonce` asks for it,
    /// and ignored otherwise).
    pub fn get_transaction_count_with_manager(&mut self, onchain: Option<u64>) -> (nonce: u64)
        requires
            old(self)@.initialized || onchain is Some,
        ensures
            old(self)@.initialized ==> nonce == old(self)@.nonce && final(self)@ == after_next(old(self)@),
            !old(self)@.initialized ==> nonce == onchain->0 && final(self)@ == after_next(
                after_initialization(old(self)@, onchain->0),
            ),
            final(self)@.initialized,
            nonce < u64::MAX ==> final(self)@.nonce == nonce + 1,
            nonce == u64::MAX ==> final(self)@.nonce == 0,
            final(self)@.address == old(self)@.address,
            final(self)@.tx_count_for_resync == old(self)@.tx_count_for_resync,
            final(self)@.txs_since_resync == old(self)@.txs_since_resync,
    {
        if !self.initialized {
            match onchain {
                Some(count) => {
                    let _ = self.record_onchain_nonce(count);
                },
                None => {},
            }
        }
        self.next()
    }

    /// Records that the node accepted a transaction and says whether the nonce is due
    /// for a resync with the chain.
    pub fn record_sent_transaction(&mut self) -> (decision: ResyncDecision)
        ensures
            (decision, final(self)@) == after_sent(old(self)@),
            (decision == ResyncDecision::Resync) <==> old(self)@.txs_since_resync >= resync_count(old(self)@),
            old(self)@.txs_since_resync < resync_count(old(self)@) ==> final(self)@ == old(self)@,
            final(self)@.nonce == old(self)@.nonce,
            final(self)@.initialized == old(self)@.initialized,
            final(self)@.address == old(self)@.address,
            final(self)@.tx_count_for_resync == old(self)@.tx_count_for_resync,
    {
        let txs_since_resync = self.txs_since_resync;
        self.txs_since_resync = self.txs_since_resync.wrapping_add(1);
        let tx_count_for_resync = self.get_tx_count_for_resync();
        if txs_since_resync >= tx_count_for_resync {
            ResyncDecision::Resync
        } else {
            self.txs_since_resync = txs_since_resync;
            ResyncDecision::Continue { txs_until_resync: tx_count_for_resync - txs_since_resync }
        }
    }

    /// Resyncs the internal nonce with the on-chain nonce.
    pub fn complete_resync(&mut self, onchain: u64)
        ensures
            final(self)@ == after_resync(old(self)@, onchain),
            final(self)@.nonce == onchain,
            final(self)@.txs_since_resync == 0,
            final(self)@.initialized == old(self)@.initialized,
            final(self)@.address == old(self)@.address,
            final(self)@.tx_count_for_resync == old(self)@.tx_count_for_resync,
    {
        self.nonce = onchain;
        self.txs_since_resync = 0;
    }

    /// After the node refused a transaction, compares the on-chain nonce with the
    /// internal one: on a mismatch the internal nonce takes the on-chain value and the
    /// transaction is to be sent again with it; otherwise the error is to be propagated.
    pub fn recover_from_failed_send(&mut self, onchain: u64) -> (action: FailedSendAction)
        ensures
            (action, final(self)@) == after_failed_send(old(self)@, onchain),
            old(self)@.nonce == onchain ==> action == FailedSendAction::PropagateError,
            old(self)@.nonce == onchain ==> final(self)@ == old(self)@,
            old(self)@.nonce != onchain ==> action == FailedSendAction::Resend(onchain),
            final(self)@.nonce == onchain,
            final(self)@.initialized == old(self)@.initialized,
            final(self)@.address == old(self)@.address,
            final(self)@.tx_count_for_resync == old(self)@.tx_count_for_resync,
            final(self)@.txs_since_resync == old(self)@.txs_since_resync,
    {
        let internal_nonce = self.nonce;
        if onchain != internal_nonce {
            self.nonce = onchain;
            FailedSendAction::Resend(onchain)
        } else {
            FailedSendAction::PropagateError
        }
    }
}

} // verus!
