//! Execution security boundary.
//!
//! A fixed set of account identities — protocol-owned programs, high-value
//! protected accounts and the bundle tip program itself — may never be
//! referenced by an ordinary (non-bundle) transaction. The production engine
//! consults this set on every admission check and rejects, not merely
//! deprioritizes, any offending transaction before execution. The set is
//! built once before the engine starts and is read-only afterwards; how it is
//! populated (and in which encoding its entries are written down) is the
//! caller's business.

use vstd::prelude::*;

verus! {

/// The byte sequence an account address string decodes to, if it decodes at
/// all. Base58 decoding is a fixed function of the characters alone; its full
/// definition is not restated here.
pub uninterp spec fn base58_decoding(s: Seq<char>) -> Option<Seq<u8>>;

/// Relies on bs58::decode with its default alphabet: whether a string decodes,
/// and to which bytes, depends on the string's characters alone.
#[verifier::external_body]
fn decode_base58(s: &str) -> (r: Option<Vec<u8>>)
    ensures
        r matches Some(v) ==> base58_decoding(s@) == Some(v@),
        r is None ==> base58_decoding(s@) is None,
{
    bs58::decode(s).into_vec().ok()
}

/// An account identity: exactly 32 bytes.
#[derive(Clone, Debug)]
pub struct AccountId {
    /// The raw identity bytes.
    pub bytes: Vec<u8>,
}

impl View for AccountId {
    type V = Seq<u8>;

    open spec fn view(&self) -> Seq<u8> {
        self.bytes@
    }
}

impl AccountId {
    /// An identity is well formed when it has the fixed 32-byte length.
    pub open spec fn wf(self) -> bool {
        self.bytes@.len() == 32
    }

    /// Accepts exactly the byte strings of the fixed identity length.
    pub fn from_bytes(bytes: Vec<u8>) -> (r: Option<AccountId>)
        ensures
            bytes@.len() == 32 ==> (r matches Some(a) && a@ == bytes@ && a.wf()),
            bytes@.len() != 32 ==> r is None,
    {
        if bytes.len() == 32 {
            Some(AccountId { bytes })
        } else {
            None
        }
    }

    /// Parses an account address written in base58, accepting exactly the
    /// strings that decode to the fixed identity length.
    pub fn from_base58(s: &str) -> (r: Option<AccountId>)
        ensures
            r matches Some(a) ==> base58_decoding(s@) == Some(a@) && a.wf(),
            r is None ==> !(base58_decoding(s@) matches Some(d) && d.len() == 32),
    {
        match decode_base58(s) {
            Some(bytes) => AccountId::from_bytes(bytes),
            None => None,
        }
    }

    /// Byte-for-byte identity comparison.
    pub fn same_as(&self, other: &AccountId) -> (r: bool)
        ensures
            r == (self@ == other@),
    {
        if self.bytes.len() != other.bytes.len() {
            return false;
        }
        let n = self.bytes.len();
        let mut i: usize = 0;
        while i < n
            invariant
                i <= n,
                n == self.bytes@.len(),
                n == other.bytes@.len(),
                forall|j: int| 0 <= j < i ==> self.bytes@[j] == other.bytes@[j],
            decreases n - i,
        {
            if self.bytes[i] != other.bytes[i] {
                return false;
            }
            i += 1;
        }
        proof {
            assert(self.bytes@ =~= other.bytes@);
        }
        true
    }
}

/// The blacklisted account set: account identities that the ordinary path
/// must never touch. Immutable after construction; changing it requires
/// rebuilding the pipeline.
#[derive(Clone, Debug)]
pub struct Blacklist {
    /// The protected identities, in the order they were supplied.
    pub accounts: Vec<AccountId>,
}

impl View for Blacklist {
    type V = Set<Seq<u8>>;

    /// The set of protected identities, as byte sequences.
    open spec fn view(&self) -> Set<Seq<u8>> {
        Set::new(
            |b: Seq<u8>|
                exists|i: int| 0 <= i < self.accounts@.len() && #[trigger] self.accounts@[i]@ == b,
        )
    }
}

impl Blacklist {
    /// Fixes the protected set. Every supplied identity is protected and
    /// nothing else is.
    pub fn new(accounts: Vec<AccountId>) -> (r: Blacklist)
        ensures
            r == (Blacklist { accounts }),
            forall|b: Seq<u8>|
                #[trigger] r@.contains(b) <==> exists|i: int|
                    0 <= i < accounts@.len() && #[trigger] accounts@[i]@ == b,
    {
        Blacklist { accounts }
    }

    /// Whether `id` is protected.
    pub fn contains(&self, id: &AccountId) -> (r: bool)
        ensures
            r == self@.contains(id@),
    {
        let n = self.accounts.len();
        let mut i: usize = 0;
        while i < n
            invariant
                i <= n,
                n == self.accounts@.len(),
                forall|j: int| 0 <= j < i ==> #[trigger] self.accounts@[j]@ != id@,
            decreases n - i,
        {
            if self.accounts[i].same_as(id) {
                return true;
            }
            i += 1;
        }
        false
    }

    /// An ordinary transaction is admissible exactly when none of the
    /// accounts it references is protected.
    pub open spec fn admissible(self, tx_accounts: Seq<AccountId>) -> bool {
        forall|k: int| 0 <= k < tx_accounts.len() ==> !self@.contains(#[trigger] tx_accounts[k]@)
    }

    /// Admission check of the ordinary path: accepts a transaction exactly
    /// when its account list does not intersect the protected set, and
    /// otherwise reports the position of the first protected account it
    /// references.
    pub fn admit_ordinary_transaction(&self, tx_accounts: &Vec<AccountId>) -> (r: Result<
        (),
        usize,
    >)
        ensures
            r is Ok <==> self.admissible(tx_accounts@),
            r matches Err(k) ==> 0 <= k < tx_accounts@.len() && self@.contains(
                tx_accounts@[k as int]@,
            ) && forall|j: int| 0 <= j < k ==> !self@.contains(#[trigger] tx_accounts@[j]@),
    {
        let n = tx_accounts.len();
        let mut k: usize = 0;
        while k < n
            invariant
                k <= n,
                n == tx_accounts@.len(),
                forall|j: int| 0 <= j < k ==> !self@.contains(#[trigger] tx_accounts@[j]@),
            decreases n - k,
        {
            if self.contains(&tx_accounts[k]) {
                return Err(k);
            }
            k += 1;
        }
        Ok(())
    }
}

/// A transaction that references any protected account is inadmissible on the
/// ordinary path, whatever its size and whatever else it references.
pub proof fn lemma_blacklisted_account_always_rejected(
    bl: Blacklist,
    tx_accounts: Seq<AccountId>,
    k: int,
)
    requires
        0 <= k < tx_accounts.len(),
        bl@.contains(tx_accounts[k]@),
    ensures
        !bl.admissible(tx_accounts),
{
}

} // verus!
