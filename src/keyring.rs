//! The named accounts and how each one's derivation string is formed.

use crate::ecdsa::{
    derived_pair, pair_from_string, public_key, public_of, sign_message, signature_of,
};
use sp_core::ecdsa::{Pair, Public, Signature};
use vstd::prelude::*;

verus! {

/// Set of test accounts using ECDSA crypto.
///
/// Compressed ECDSA public keys are 33 bytes long, which is why these accounts
/// are kept apart from keyrings built on 32-byte public keys.
#[derive(Debug, Clone, Copy, PartialEq, Eq, Structural)]
pub enum Keyring {
    Alice,
    Bob,
    Charlie,
    Dave,
    Eve,
    Ferdie,
    One,
    Two,
}

impl Keyring {
    /// The account's name, spelled exactly as its variant.
    pub open spec fn spec_label(self) -> Seq<char> {
        match self {
            Keyring::Alice => "Alice"@,
            Keyring::Bob => "Bob"@,
            Keyring::Charlie => "Charlie"@,
            Keyring::Dave => "Dave"@,
            Keyring::Eve => "Eve"@,
            Keyring::Ferdie => "Ferdie"@,
            Keyring::One => "One"@,
            Keyring::Two => "Two"@,
        }
    }

    /// The derivation string: a hard junction named after the account.
    pub open spec fn seed(self) -> Seq<char> {
        seq!['/', '/'] + self.spec_label()
    }

    /// Every account, in declaration order.
    pub open spec fn all() -> Seq<Keyring> {
        seq![
            Keyring::Alice,
            Keyring::Bob,
            Keyring::Charlie,
            Keyring::Dave,
            Keyring::Eve,
            Keyring::Ferdie,
            Keyring::One,
            Keyring::Two,
        ]
    }

    /// The account's key pair: the one derived from its derivation string.
    pub open spec fn spec_pair(self) -> Pair {
        derived_pair(self.seed())
    }

    /// Return the account's name.
    pub fn label(self) -> (r: &'static str)
        ensures
            r@ == self.spec_label(),
    {
        match self {
            Keyring::Alice => "Alice",
            Keyring::Bob => "Bob",
            Keyring::Charlie => "Charlie",
            Keyring::Dave => "Dave",
            Keyring::Eve => "Eve",
            Keyring::Ferdie => "Ferdie",
            Keyring::One => "One",
            Keyring::Two => "Two",
        }
    }

    /// Return the derivation string `//<label>`.
    pub fn to_seed(self) -> (r: String)
        ensures
            r@ == self.seed(),
    {
        let mut s = String::from_str("//");
        proof {
            reveal_strlit("//");
        }
        s.append(self.label());
        s
    }

    /// Return the key pair derived from the account's derivation string. It is
    /// derived anew on each call.
    pub fn pair(self) -> (r: Pair)
        ensures
            r == self.spec_pair(),
    {
        let seed = self.to_seed();
        pair_from_string(seed.as_str()).unwrap()
    }

    /// Return the public key of the account's key pair.
    pub fn public(self) -> (r: Public)
        ensures
            r == public_of(self.spec_pair()),
    {
        public_key(&self.pair())
    }

    /// Sign `msg`, which may be empty, with the account's key pair.
    pub fn sign(self, msg: &[u8]) -> (r: Signature)
        ensures
            r == signature_of(self.spec_pair(), msg@),
    {
        sign_message(&Pair::from(self), msg)
    }

    /// All test accounts, in declaration order.
    pub fn iter() -> (r: Vec<Keyring>)
        ensures
            r@ == Keyring::all(),
    {
        let r = vec![
            Keyring::Alice,
            Keyring::Bob,
            Keyring::Charlie,
            Keyring::Dave,
            Keyring::Eve,
            Keyring::Ferdie,
            Keyring::One,
            Keyring::Two,
        ];
        assert(r@ =~= Keyring::all());
        r
    }
}

/// `iter` lists every account exactly once: eight of them, no two alike, and
/// none missing.
pub proof fn iter_lists_each_account_once()
    ensures
        Keyring::all().len() == 8,
        Keyring::all().no_duplicates(),
        forall|k: Keyring| #[trigger] Keyring::all().contains(k),
{
    let all = Keyring::all();
    assert forall|k: Keyring| #[trigger] all.contains(k) by {
        let i: int = match k {
            Keyring::Alice => 0,
            Keyring::Bob => 1,
            Keyring::Charlie => 2,
            Keyring::Dave => 3,
            Keyring::Eve => 4,
            Keyring::Ferdie => 5,
            Keyring::One => 6,
            Keyring::Two => 7,
        };
        assert(all[i] == k);
    }
}

/// Deriving an account's key pair twice gives the same pair both times, the
/// one derived from the account's seed string.
pub proof fn pair_is_deterministic(k: Keyring, seed: Seq<char>, first: Pair, second: Pair)
    requires
        seed == k.seed(),
        first == k.spec_pair(),
        second == k.spec_pair(),
    ensures
        first == second,
        first == derived_pair(seed),
{
}

/// Two different accounts hand different seed strings to the key derivation.
pub proof fn distinct_accounts_have_distinct_seeds(a: Keyring, b: Keyring)
    requires
        a != b,
    ensures
        a.seed() != b.seed(),
{
    reveal_strlit("Alice");
    reveal_strlit("Bob");
    reveal_strlit("Charlie");
    reveal_strlit("Dave");
    reveal_strlit("Eve");
    reveal_strlit("Ferdie");
    reveal_strlit("One");
    reveal_strlit("Two");
    assert(a.seed()[2] != b.seed()[2]);
}

impl From<Keyring> for Pair {
    fn from(k: Keyring) -> (r: Pair) {
        k.pair()
    }
}

impl vstd::std_specs::convert::FromSpecImpl<Keyring> for Pair {
    open spec fn obeys_from_spec() -> bool {
        true
    }

    open spec fn from_spec(k: Keyring) -> Pair {
        k.spec_pair()
    }
}

} // verus!
