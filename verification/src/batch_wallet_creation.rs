//! Batch creation of wallets.
//!
//! The administrator creates wallets for many owners in one call. An owner
//! has one wallet at most: a request for an owner who has one, from an
//! earlier batch or from an earlier request of this one, is refused and
//! counted, and the requests after it are processed all the same. Wallet ids
//! go up by one with every wallet created.

use vstd::prelude::*;
use crate::address::Address;
use crate::ledger_error::{contract_error, from_contract_error};
use crate::store::EntityStore;
use crate::tally::{count_true, AlreadyInitialized};
use crate::batch_wallet_creation::types::{
    BatchCreateResult, Wallet, WalletCreateRequest, WalletCreateResult, WalletEvent, WalletEvents,
    MAX_BATCH_SIZE,
};

pub mod types;

verus! {

/// Item code: the owner's address is invalid.
pub const INVALID_ADDRESS: u32 = 0;

/// Item code: the owner has a wallet already.
pub const ALREADY_EXISTS: u32 = 1;

/// The errors that void a whole call.
#[derive(Copy, Clone, Debug, Eq, PartialEq, Structural)]
pub enum BatchWalletError {
    /// Contract not initialized
    NotInitialized,
    /// Caller is not authorized
    Unauthorized,
    /// Invalid batch data
    InvalidBatch,
    /// Batch is empty
    EmptyBatch,
    /// Batch exceeds maximum size
    BatchTooLarge,
}

impl BatchWalletError {
    /// The number under which the ledger reports this error.
    pub open spec fn spec_code(self) -> u32 {
        match self {
            BatchWalletError::NotInitialized => 1,
            BatchWalletError::Unauthorized => 2,
            BatchWalletError::InvalidBatch => 3,
            BatchWalletError::EmptyBatch => 4,
            BatchWalletError::BatchTooLarge => 5,
        }
    }

    /// The number under which the ledger reports this error.
    pub fn code(self) -> (c: u32)
        ensures
            c == self.spec_code(),
    {
        match self {
            BatchWalletError::NotInitialized => 1,
            BatchWalletError::Unauthorized => 2,
            BatchWalletError::InvalidBatch => 3,
            BatchWalletError::EmptyBatch => 4,
            BatchWalletError::BatchTooLarge => 5,
        }
    }
}

impl From<BatchWalletError> for soroban_sdk::Error {
    /// The ledger's error value for `e`.
    fn from(e: BatchWalletError) -> (error: Self) {
        from_contract_error(e.code())
    }
}

impl vstd::std_specs::convert::FromSpecImpl<BatchWalletError> for soroban_sdk::Error {
    open spec fn obeys_from_spec() -> bool {
        true
    }

    open spec fn from_spec(e: BatchWalletError) -> Self {
        contract_error(e.spec_code())
    }
}

/// The owners who have a wallet once the first `k` requests are processed:
/// those who had one, and those whom the requests name.
pub open spec fn owners_after(
    owners: Set<Address>,
    reqs: Seq<WalletCreateRequest>,
    k: int,
) -> Set<Address>
    decreases k,
{
    if k <= 0 {
        owners
    } else {
        owners_after(owners, reqs, k - 1).insert(reqs[k - 1].owner)
    }
}

/// Whether request `i` creates a wallet: its owner has none when its turn
/// comes.
pub open spec fn creates(owners: Set<Address>, reqs: Seq<WalletCreateRequest>, i: int) -> bool {
    !owners_after(owners, reqs, i).contains(reqs[i].owner)
}

/// For each request, whether it creates a wallet.
pub open spec fn created_flags(owners: Set<Address>, reqs: Seq<WalletCreateRequest>) -> Seq<bool> {
    Seq::new(reqs.len(), |i: int| creates(owners, reqs, i))
}

/// The wallet id that request `i` gets if it creates a wallet: ids go up by
/// one from `last_id` with every wallet created.
pub open spec fn wallet_id_at(
    owners: Set<Address>,
    last_id: u64,
    reqs: Seq<WalletCreateRequest>,
    i: int,
) -> int {
    last_id + count_true(created_flags(owners, reqs), i) + 1
}

/// The wallet that request `i` creates in ledger `ledger`.
pub open spec fn wallet_for(
    owners: Set<Address>,
    last_id: u64,
    ledger: u32,
    reqs: Seq<WalletCreateRequest>,
    i: int,
) -> Wallet {
    Wallet {
        id: wallet_id_at(owners, last_id, reqs, i) as u64,
        owner: reqs[i].owner,
        created_at: ledger as u64,
    }
}

/// The wallets once the first `k` requests are processed.
pub open spec fn wallets_after(
    before: Map<Address, Wallet>,
    last_id: u64,
    ledger: u32,
    reqs: Seq<WalletCreateRequest>,
    k: int,
) -> Map<Address, Wallet>
    decreases k,
{
    if k <= 0 {
        before
    } else if creates(before.dom(), reqs, k - 1) {
        wallets_after(before, last_id, ledger, reqs, k - 1).insert(
            reqs[k - 1].owner,
            wallet_for(before.dom(), last_id, ledger, reqs, k - 1),
        )
    } else {
        wallets_after(before, last_id, ledger, reqs, k - 1)
    }
}

/// The result recorded for request `i`.
pub open spec fn outcome(
    owners: Set<Address>,
    reqs: Seq<WalletCreateRequest>,
    i: int,
) -> WalletCreateResult {
    if creates(owners, reqs, i) {
        WalletCreateResult::Success(reqs[i].owner)
    } else {
        WalletCreateResult::Failure(reqs[i].owner, ALREADY_EXISTS)
    }
}

/// The results of a batch: one per request, in the order of the requests.
pub open spec fn batch_results(owners: Set<Address>, reqs: Seq<WalletCreateRequest>) -> Seq<
    WalletCreateResult,
> {
    Seq::new(reqs.len(), |i: int| outcome(owners, reqs, i))
}

/// The event that reports request `i`.
pub open spec fn item_event(
    batch_id: u64,
    owners: Set<Address>,
    last_id: u64,
    reqs: Seq<WalletCreateRequest>,
    i: int,
) -> WalletEvent {
    if creates(owners, reqs, i) {
        WalletEvent::WalletCreated {
            batch_id,
            owner: reqs[i].owner,
            wallet_id: wallet_id_at(owners, last_id, reqs, i) as u64,
        }
    } else {
        WalletEvent::WalletCreationFailure {
            batch_id,
            owner: reqs[i].owner,
            error_code: ALREADY_EXISTS,
        }
    }
}

/// The events of the first `k` requests of a batch, in order.
pub open spec fn item_events(
    batch_id: u64,
    owners: Set<Address>,
    last_id: u64,
    reqs: Seq<WalletCreateRequest>,
    k: int,
) -> Seq<WalletEvent> {
    Seq::new(k as nat, |i: int| item_event(batch_id, owners, last_id, reqs, i))
}

/// The error that voids a call by `caller` on `n` requests, if there is one.
/// The administrator is checked before the size of the batch.
pub open spec fn batch_error(admin: Option<Address>, caller: Address, n: int) -> Option<
    BatchWalletError,
> {
    if admin is None {
        Some(BatchWalletError::NotInitialized)
    } else if admin != Some(caller) {
        Some(BatchWalletError::Unauthorized)
    } else if n == 0 {
        Some(BatchWalletError::EmptyBatch)
    } else if n > MAX_BATCH_SIZE {
        Some(BatchWalletError::BatchTooLarge)
    } else {
        None
    }
}

/// Whether a result is for the owner of a request.
pub open spec fn echoes(result: WalletCreateResult, r: WalletCreateRequest) -> bool {
    match result {
        WalletCreateResult::Success(owner) => owner == r.owner,
        WalletCreateResult::Failure(owner, _) => owner == r.owner,
    }
}

/// The owners of the wallets after `k` requests are those who had a wallet
/// and those whom the requests name.
pub proof fn lemma_wallet_owners(
    before: Map<Address, Wallet>,
    last_id: u64,
    ledger: u32,
    reqs: Seq<WalletCreateRequest>,
    k: int,
)
    requires
        0 <= k <= reqs.len(),
    ensures
        wallets_after(before, last_id, ledger, reqs, k).dom() =~= owners_after(
            before.dom(),
            reqs,
            k,
        ),
    decreases k,
{
    if k > 0 {
        lemma_wallet_owners(before, last_id, ledger, reqs, k - 1);
    }
}

/// Whoever has a wallet as the batch is entered keeps having one.
pub proof fn lemma_owners_stay(owners: Set<Address>, reqs: Seq<WalletCreateRequest>, k: int)
    requires
        0 <= k <= reqs.len(),
    ensures
        owners.subset_of(owners_after(owners, reqs, k)),
        forall|j: int| 0 <= j < k ==> owners_after(owners, reqs, k).contains(#[trigger] reqs[j].owner),
    decreases k,
{
    if k > 0 {
        lemma_owners_stay(owners, reqs, k - 1);
    }
}

/// A request for an owner who has a wallet already is refused with
/// `ALREADY_EXISTS`, wherever it stands in the batch.
pub proof fn lemma_existing_owner_is_refused(
    owners: Set<Address>,
    reqs: Seq<WalletCreateRequest>,
    i: int,
)
    requires
        0 <= i < reqs.len(),
        owners.contains(reqs[i].owner),
    ensures
        outcome(owners, reqs, i) == WalletCreateResult::Failure(reqs[i].owner, ALREADY_EXISTS),
{
    lemma_owners_stay(owners, reqs, i);
}

/// A request for an owner whom an earlier request of the batch names is
/// refused with `ALREADY_EXISTS`.
pub proof fn lemma_repeated_owner_is_refused(
    owners: Set<Address>,
    reqs: Seq<WalletCreateRequest>,
    j: int,
    i: int,
)
    requires
        0 <= j < i < reqs.len(),
        reqs[j].owner == reqs[i].owner,
    ensures
        outcome(owners, reqs, i) == WalletCreateResult::Failure(reqs[i].owner, ALREADY_EXISTS),
{
    lemma_owners_stay(owners, reqs, i);
}

/// The owners after `k` requests are no others than those who had a wallet
/// and those whom the requests name.
pub proof fn lemma_owners_origin(
    owners: Set<Address>,
    reqs: Seq<WalletCreateRequest>,
    k: int,
    owner: Address,
)
    requires
        0 <= k <= reqs.len(),
        owners_after(owners, reqs, k).contains(owner),
    ensures
        owners.contains(owner) || exists|j: int| 0 <= j < k && (#[trigger] reqs[j]).owner == owner,
    decreases k,
{
    if k > 0 {
        if reqs[k - 1].owner != owner {
            lemma_owners_origin(owners, reqs, k - 1, owner);
        }
    }
}

/// A request for a new owner succeeds, whatever was refused before it, and
/// its wallet gets the id that follows the wallets created so far.
pub proof fn lemma_new_owner_succeeds(
    before: Map<Address, Wallet>,
    last_id: u64,
    ledger: u32,
    reqs: Seq<WalletCreateRequest>,
    i: int,
)
    requires
        0 <= i < reqs.len(),
        !before.contains_key(reqs[i].owner),
        forall|j: int| 0 <= j < i ==> (#[trigger] reqs[j]).owner != reqs[i].owner,
    ensures
        outcome(before.dom(), reqs, i) == WalletCreateResult::Success(reqs[i].owner),
        wallets_after(before, last_id, ledger, reqs, i + 1)[reqs[i].owner] == (Wallet {
            id: (last_id + count_true(created_flags(before.dom(), reqs), i) + 1) as u64,
            owner: reqs[i].owner,
            created_at: ledger as u64,
        }),
{
    if owners_after(before.dom(), reqs, i).contains(reqs[i].owner) {
        lemma_owners_origin(before.dom(), reqs, i, reqs[i].owner);
    }
}

/// The ledger state of the wallet contract: its administrator, its counters,
/// the wallet of each owner, and its event trail.
pub struct BatchWalletContract {
    pub admin: Option<Address>,
    pub total_batches: u64,
    pub total_wallets_created: u64,
    pub wallets: EntityStore<Wallet>,
    pub events: Vec<WalletEvent>,
}

impl BatchWalletContract {
    /// Whether the counters can take one more batch of any accepted size.
    pub open spec fn has_room(&self) -> bool {
        self.total_batches < u64::MAX && self.total_wallets_created <= u64::MAX - MAX_BATCH_SIZE
    }

    /// Whether `post` is `pre` after a batch on `reqs` in ledger `ledger`
    /// that returned `result`.
    pub open spec fn committed(
        pre: Self,
        post: Self,
        ledger: u32,
        reqs: Seq<WalletCreateRequest>,
        result: BatchCreateResult,
    ) -> bool {
        let n = reqs.len() as int;
        let owners = pre.wallets@.dom();
        let created = count_true(created_flags(owners, reqs), n);
        let batch_id = (pre.total_batches + 1) as u64;
        &&& result.total_requests == n
        &&& result.results@ == batch_results(owners, reqs)
        &&& result.successful == created
        &&& result.failed == n - created
        &&& post.admin == pre.admin
        &&& post.total_batches == pre.total_batches + 1
        &&& post.total_wallets_created == pre.total_wallets_created + created
        &&& post.wallets@ == wallets_after(
            pre.wallets@,
            pre.total_wallets_created,
            ledger,
            reqs,
            n,
        )
        &&& post.events@ == pre.events@ + seq![
            WalletEvent::BatchStarted { batch_id, request_count: result.total_requests },
        ] + item_events(batch_id, owners, pre.total_wallets_created, reqs, n) + seq![
            WalletEvent::BatchCompleted {
                batch_id,
                successful: result.successful,
                failed: result.failed,
            },
        ]
    }

    /// The state of a contract that was just deployed: no administrator, all
    /// counters at 0, no wallets, no events.
    pub fn new() -> (c: Self)
        ensures
            c.admin is None,
            c.total_batches == 0,
            c.total_wallets_created == 0,
            c.wallets@ == Map::<Address, Wallet>::empty(),
            c.events@ == Seq::<WalletEvent>::empty(),
            c.has_room(),
    {
        BatchWalletContract {
            admin: None,
            total_batches: 0,
            total_wallets_created: 0,
            wallets: EntityStore::new(),
            events: Vec::new(),
        }
    }

    /// Initializes the contract with its administrator and resets the
    /// counters. A contract that has an administrator is left as it is.
    pub fn initialize(&mut self, admin: Address) -> (r: Result<(), AlreadyInitialized>)
        ensures
            old(self).admin is Some ==> r is Err && *final(self) == *old(self),
            old(self).admin is None ==> r is Ok,
            old(self).admin is None ==> final(self).admin == Some(admin),
            old(self).admin is None ==> final(self).total_batches == 0,
            old(self).admin is None ==> final(self).total_wallets_created == 0,
            old(self).admin is None ==> final(self).wallets == old(self).wallets,
            old(self).admin is None ==> final(self).events == old(self).events,
    {
        if self.admin.is_some() {
            return Err(AlreadyInitialized);
        }
        self.admin = Some(admin);
        self.total_batches = 0;
        self.total_wallets_created = 0;
        Ok(())
    }

    /// Whether the counters can take one more batch of any accepted size.
    pub fn can_accept_batch(&self) -> (b: bool)
        ensures
            b == self.has_room(),
    {
        let limit: u64 = u64::MAX - MAX_BATCH_SIZE as u64;
        self.total_batches < u64::MAX && self.total_wallets_created <= limit
    }

    /// Creates wallets for a batch of owners in ledger `current_ledger`.
    ///
    /// The call is refused, and the contract left as it was, where the
    /// contract has no administrator, `caller` is not the administrator, the
    /// batch is empty, or it holds more than `MAX_BATCH_SIZE` requests.
    /// Otherwise every request gets a result, in input order: a failure with
    /// `ALREADY_EXISTS` where the owner has a wallet, else a success, with a
    /// wallet under the next wallet id. The counters move once, after the
    /// last request.
    pub fn batch_create_wallets(
        &mut self,
        caller: Address,
        current_ledger: u32,
        requests: &Vec<WalletCreateRequest>,
    ) -> (r: Result<BatchCreateResult, BatchWalletError>)
        requires
            old(self).has_room(),
        ensures
            match r {
                Ok(result) => {
                    &&& batch_error(old(self).admin, caller, requests@.len() as int) is None
                    &&& Self::committed(
                        *old(self),
                        *final(self),
                        current_ledger,
                        requests@,
                        result,
                    )
                    &&& result.results@.len() == result.total_requests
                    &&& result.successful + result.failed == result.total_requests
                    &&& forall|i: int|
                        0 <= i < requests@.len() ==> echoes(
                            #[trigger] result.results@[i],
                            requests@[i],
                        )
                },
                Err(e) => batch_error(old(self).admin, caller, requests@.len() as int) == Some(e)
                    && *final(self) == *old(self),
            },
    {
        let count = requests.len();
        match self.check_preconditions(&caller, count) {
            Err(e) => {
                return Err(e);
            },
            Ok(_) => {},
        }
        let request_count: u32 = count as u32;
        let batch_id: u64 = self.total_batches + 1;
        let ghost pre_events = self.events@;
        let ghost pre_wallets = self.wallets@;
        let ghost owners = self.wallets@.dom();
        let ghost reqs = requests@;
        let ghost last0 = self.total_wallets_created;
        let ghost flags = created_flags(owners, reqs);

        WalletEvents::batch_started(&mut self.events, batch_id, request_count);

        let mut results: Vec<WalletCreateResult> = Vec::new();
        let mut successful_count: u32 = 0;
        let mut failed_count: u32 = 0;
        let mut wallet_id_counter: u64 = self.total_wallets_created;
        let created_at: u64 = current_ledger as u64;

        let mut i: usize = 0;
        while i < count
            invariant
                i <= count,
                0 < count <= MAX_BATCH_SIZE,
                count == requests.len(),
                reqs == requests@,
                owners == pre_wallets.dom(),
                flags == created_flags(owners, reqs),
                last0 == old(self).total_wallets_created,
                last0 <= u64::MAX - MAX_BATCH_SIZE,
                created_at == current_ledger as u64,
                results.len() == i,
                forall|j: int| 0 <= j < i ==> results@[j] == outcome(owners, reqs, j),
                successful_count == count_true(flags, i as int),
                failed_count == i - successful_count,
                successful_count <= i,
                wallet_id_counter == last0 + successful_count,
                self.wallets@ == wallets_after(pre_wallets, last0, current_ledger, reqs, i as int),
                self.events@ == pre_events + seq![
                    WalletEvent::BatchStarted { batch_id, request_count },
                ] + item_events(batch_id, owners, last0, reqs, i as int),
                self.admin == old(self).admin,
                self.total_batches == old(self).total_batches,
                self.total_wallets_created == old(self).total_wallets_created,
            decreases count - i,
        {
            let owner = requests[i].owner;
            proof {
                lemma_wallet_owners(pre_wallets, last0, current_ledger, reqs, i as int);
            }
            if self.wallets.has(&owner) {
                // The owner has a wallet - record and continue
                results.push(WalletCreateResult::Failure(owner, ALREADY_EXISTS));
                failed_count += 1;
                WalletEvents::wallet_creation_failure(
                    &mut self.events,
                    batch_id,
                    &owner,
                    ALREADY_EXISTS,
                );
            } else {
                wallet_id_counter += 1;
                let wallet = Wallet { id: wallet_id_counter, owner, created_at };
                self.wallets.set(owner, wallet);
                results.push(WalletCreateResult::Success(owner));
                successful_count += 1;
                WalletEvents::wallet_created(&mut self.events, batch_id, &owner, wallet_id_counter);
            }
            proof {
                assert(self.events@ =~= pre_events + seq![
                    WalletEvent::BatchStarted { batch_id, request_count },
                ] + item_events(batch_id, owners, last0, reqs, i + 1));
            }
            i += 1;
        }

        // Update the counters, once for the whole batch
        self.total_batches = batch_id;
        self.total_wallets_created = wallet_id_counter;

        WalletEvents::batch_completed(&mut self.events, batch_id, successful_count, failed_count);

        let result = BatchCreateResult {
            total_requests: request_count,
            successful: successful_count,
            failed: failed_count,
            results,
        };
        proof {
            assert(result.results@ =~= batch_results(owners, reqs));
            assert(self.events@ =~= pre_events + seq![
                WalletEvent::BatchStarted { batch_id, request_count },
            ] + item_events(batch_id, owners, last0, reqs, count as int) + seq![
                WalletEvent::BatchCompleted {
                    batch_id,
                    successful: successful_count,
                    failed: failed_count,
                },
            ]);
        }
        Ok(result)
    }

    /// The wallet of `owner`, if there is one.
    pub fn get_wallet(&self, owner: Address) -> (w: Option<Wallet>)
        ensures
            match w {
                Some(wallet) => self.wallets@.contains_key(owner) && wallet
                    == self.wallets@[owner],
                None => !self.wallets@.contains_key(owner),
            },
    {
        match self.wallets.get(&owner) {
            Some(wallet) => Some(*wallet),
            None => None,
        }
    }

    /// The administrator.
    pub fn get_admin(&self) -> (r: Result<Address, BatchWalletError>)
        ensures
            match self.admin {
                Some(admin) => r == Ok::<Address, BatchWalletError>(admin),
                None => r == Err::<Address, BatchWalletError>(BatchWalletError::NotInitialized),
            },
    {
        match self.admin {
            Some(admin) => Ok(admin),
            None => Err(BatchWalletError::NotInitialized),
        }
    }

    /// Hands the administration over to `new_admin`. Only the administrator
    /// can do so.
    pub fn set_admin(&mut self, current_admin: Address, new_admin: Address) -> (r: Result<
        (),
        BatchWalletError,
    >)
        ensures
            match r {
                Ok(_) => {
                    &&& old(self).admin == Some(current_admin)
                    &&& *final(self) == (BatchWalletContract {
                        admin: Some(new_admin),
                        ..*old(self)
                    })
                },
                Err(e) => {
                    &&& *final(self) == *old(self)
                    &&& old(self).admin is None ==> e == BatchWalletError::NotInitialized
                    &&& old(self).admin is Some ==> e == BatchWalletError::Unauthorized
                        && old(self).admin != Some(current_admin)
                },
            },
    {
        match self.require_admin(&current_admin) {
            Err(e) => {
                return Err(e);
            },
            Ok(_) => {},
        }
        self.admin = Some(new_admin);
        Ok(())
    }

    /// The number of batches processed.
    pub fn get_total_batches(&self) -> (n: u64)
        ensures
            n == self.total_batches,
    {
        self.total_batches
    }

    /// The number of wallets created, which is the id of the last one.
    pub fn get_total_wallets_created(&self) -> (n: u64)
        ensures
            n == self.total_wallets_created,
    {
        self.total_wallets_created
    }

    /// Checks what is asked of a call before any item is touched: that the
    /// contract has an administrator, that `caller` is the administrator,
    /// and that the batch holds at least one item and no more than
    /// `MAX_BATCH_SIZE`.
    pub fn check_preconditions(&self, caller: &Address, count: usize) -> (r: Result<(), BatchWalletError>)
        ensures
            r == match batch_error(self.admin, *caller, count as int) {
                Some(e) => Err::<(), BatchWalletError>(e),
                None => Ok::<(), BatchWalletError>(()),
            },
    {
        match self.require_admin(caller) {
            Err(e) => {
                return Err(e);
            },
            Ok(_) => {},
        }
        if count == 0 {
            return Err(BatchWalletError::EmptyBatch);
        }
        if count > MAX_BATCH_SIZE as usize {
            return Err(BatchWalletError::BatchTooLarge);
        }
        Ok(())
    }

    /// Checks that `caller` is the administrator.
    fn require_admin(&self, caller: &Address) -> (r: Result<(), BatchWalletError>)
        ensures
            match self.admin {
                None => r == Err::<(), BatchWalletError>(BatchWalletError::NotInitialized),
                Some(admin) => if admin == *caller {
                    r == Ok::<(), BatchWalletError>(())
                } else {
                    r == Err::<(), BatchWalletError>(BatchWalletError::Unauthorized)
                },
            },
    {
        match self.admin {
            None => Err(BatchWalletError::NotInitialized),
            Some(admin) => {
                if *caller != admin {
                    Err(BatchWalletError::Unauthorized)
                } else {
                    Ok(())
                }
            },
        }
    }
}

/// Two batches in a row: the batch count goes up by one each, and the number
/// of wallets created, which is the last wallet id, grows by the wallets of
/// both batches.
pub proof fn lemma_batches_accumulate(
    start: BatchWalletContract,
    middle: BatchWalletContract,
    end: BatchWalletContract,
    first_ledger: u32,
    first: Seq<WalletCreateRequest>,
    first_result: BatchCreateResult,
    second_ledger: u32,
    second: Seq<WalletCreateRequest>,
    second_result: BatchCreateResult,
)
    requires
        BatchWalletContract::committed(start, middle, first_ledger, first, first_result),
        BatchWalletContract::committed(middle, end, second_ledger, second, second_result),
    ensures
        middle.total_batches == start.total_batches + 1,
        end.total_batches == start.total_batches + 2,
        end.total_wallets_created == start.total_wallets_created + first_result.successful
            + second_result.successful,
{
}

} // verus!
