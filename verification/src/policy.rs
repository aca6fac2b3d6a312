//! The escrow spending policy: a 2-of-3 multisignature locking script over
//! {buyer, seller, arbitrator}, and the network deposit address derived from
//! the script's SHA-256 hash.
//!
//! The three keys are placed in the script in canonical (lexicographic)
//! order, so the same three identities always yield the same script and
//! address, whatever order they are supplied in; that law is proved in
//! [`lemma_policy_script_order_independent`].

use vstd::prelude::*;
use crate::bytes::{lex_le, lex_le_bytes, push_all, copy_bytes, lemma_lex_total, lemma_lex_antisym,
    lemma_lex_trans};
use crate::errors::EscrowError;
use crate::hashes::{sha256, sha256_of};
use crate::identity::{Identity, point_valid};

verus! {

/// Script opcode: push the number 2.
pub const OP_2: u8 = 0x52;

/// Script opcode: push the number 3.
pub const OP_3: u8 = 0x53;

/// Script opcode: push the next 33 bytes.
pub const OP_PUSHBYTES_33: u8 = 0x21;

/// Script opcode: check a multisignature against a set of keys.
pub const OP_CHECKMULTISIG: u8 = 0xae;

// ---------------------------------------------------------------------------
// Canonical key order
// ---------------------------------------------------------------------------

/// Two byte strings in lexicographic order.
pub open spec fn sort2(a: Seq<u8>, b: Seq<u8>) -> (Seq<u8>, Seq<u8>) {
    if lex_le(a, b) {
        (a, b)
    } else {
        (b, a)
    }
}

/// Three byte strings in lexicographic order, by a three-comparison
/// sorting network.
pub open spec fn sort3(a: Seq<u8>, b: Seq<u8>, c: Seq<u8>) -> (Seq<u8>, Seq<u8>, Seq<u8>) {
    let (x, y) = sort2(a, b);
    let (y2, z) = sort2(y, c);
    let (x2, y3) = sort2(x, y2);
    (x2, y3, z)
}

/// All order facts on three byte strings that the sorting proofs need:
/// totality, antisymmetry and transitivity of `lex_le` instantiated on
/// every pair drawn from {a, b, c}.
proof fn lemma_lex_facts3(a: Seq<u8>, b: Seq<u8>, c: Seq<u8>)
    ensures
        lex_le(a, b) || lex_le(b, a),
        lex_le(a, c) || lex_le(c, a),
        lex_le(b, c) || lex_le(c, b),
        lex_le(a, b) && lex_le(b, a) ==> a == b,
        lex_le(a, c) && lex_le(c, a) ==> a == c,
        lex_le(b, c) && lex_le(c, b) ==> b == c,
        lex_le(a, b) && lex_le(b, c) ==> lex_le(a, c),
        lex_le(a, c) && lex_le(c, b) ==> lex_le(a, b),
        lex_le(b, a) && lex_le(a, c) ==> lex_le(b, c),
        lex_le(b, c) && lex_le(c, a) ==> lex_le(b, a),
        lex_le(c, a) && lex_le(a, b) ==> lex_le(c, b),
        lex_le(c, b) && lex_le(b, a) ==> lex_le(c, a),
{
    lemma_lex_total(a, b);
    lemma_lex_total(a, c);
    lemma_lex_total(b, c);
    if lex_le(a, b) && lex_le(b, a) {
        lemma_lex_antisym(a, b);
    }
    if lex_le(a, c) && lex_le(c, a) {
        lemma_lex_antisym(a, c);
    }
    if lex_le(b, c) && lex_le(c, b) {
        lemma_lex_antisym(b, c);
    }
    if lex_le(a, b) && lex_le(b, c) {
        lemma_lex_trans(a, b, c);
    }
    if lex_le(a, c) && lex_le(c, b) {
        lemma_lex_trans(a, c, b);
    }
    if lex_le(b, a) && lex_le(a, c) {
        lemma_lex_trans(b, a, c);
    }
    if lex_le(b, c) && lex_le(c, a) {
        lemma_lex_trans(b, c, a);
    }
    if lex_le(c, a) && lex_le(a, b) {
        lemma_lex_trans(c, a, b);
    }
    if lex_le(c, b) && lex_le(b, a) {
        lemma_lex_trans(c, b, a);
    }
}

/// Swapping the first two inputs does not change the sorted triple.
proof fn lemma_sort3_swap01(a: Seq<u8>, b: Seq<u8>, c: Seq<u8>)
    ensures
        sort3(a, b, c) == sort3(b, a, c),
{
    lemma_lex_facts3(a, b, c);
}

/// Swapping the last two inputs does not change the sorted triple.
proof fn lemma_sort3_swap12(a: Seq<u8>, b: Seq<u8>, c: Seq<u8>)
    ensures
        sort3(a, b, c) == sort3(a, c, b),
{
    lemma_lex_facts3(a, b, c);
}

// ---------------------------------------------------------------------------
// The locking script
// ---------------------------------------------------------------------------

/// The 2-of-3 `CHECKMULTISIG` witness script over three 33-byte keys, in
/// the order given: `OP_2 <k0> <k1> <k2> OP_3 OP_CHECKMULTISIG`.
#[verifier::opaque]
pub open spec fn multisig_2of3_script(k0: Seq<u8>, k1: Seq<u8>, k2: Seq<u8>) -> Seq<u8> {
    seq![OP_2, OP_PUSHBYTES_33] + k0 + seq![OP_PUSHBYTES_33] + k1 + seq![OP_PUSHBYTES_33] + k2
        + seq![OP_3, OP_CHECKMULTISIG]
}

/// The canonical escrow locking script of three participant keys: the
/// 2-of-3 multisignature script over the keys in lexicographic order.
pub open spec fn policy_script(a: Seq<u8>, b: Seq<u8>, c: Seq<u8>) -> Seq<u8> {
    let (k0, k1, k2) = sort3(a, b, c);
    multisig_2of3_script(k0, k1, k2)
}

/// Law: the escrow locking script does not depend on the order in which
/// the three participant keys are supplied; with it, neither does the
/// deposit address, which is a function of the script alone. Together with
/// `build_policy`'s postcondition — the script of the returned policy *is*
/// `policy_script` of the three keys — two calls on the same three
/// identities, in any input order, yield the identical script and address.
pub proof fn lemma_policy_script_order_independent(a: Seq<u8>, b: Seq<u8>, c: Seq<u8>)
    ensures
        policy_script(a, b, c) == policy_script(b, a, c),
        policy_script(a, b, c) == policy_script(a, c, b),
        policy_script(a, b, c) == policy_script(b, c, a),
        policy_script(a, b, c) == policy_script(c, a, b),
        policy_script(a, b, c) == policy_script(c, b, a),
{
    lemma_sort3_swap01(a, b, c);
    lemma_sort3_swap12(a, b, c);
    lemma_sort3_swap01(a, c, b);
    lemma_sort3_swap12(b, a, c);
    lemma_sort3_swap01(b, c, a);
    lemma_sort3_swap12(c, a, b);
}

/// Whether two key triples hold the same three keys, in any order.
pub open spec fn same_keys(
    t1: (Seq<u8>, Seq<u8>, Seq<u8>),
    t2: (Seq<u8>, Seq<u8>, Seq<u8>),
) -> bool {
    let (a, b, c) = t1;
    ||| t2 == (a, b, c)
    ||| t2 == (a, c, b)
    ||| t2 == (b, a, c)
    ||| t2 == (b, c, a)
    ||| t2 == (c, a, b)
    ||| t2 == (c, b, a)
}

// ---------------------------------------------------------------------------
// The deposit address
// ---------------------------------------------------------------------------

/// The main-network address string of a version-0 witness program: the
/// bech32 encoding of the given 32-byte program. A function of the program
/// bytes alone.
pub uninterp spec fn segwit_v0_address(program: Seq<u8>) -> Seq<char>;

/// Relies on `bitcoin::Address::from_witness_program` with
/// `WitnessProgram::new(V0, ..)` and `KnownHrp::Mainnet`: the main-network
/// bech32 address encoding of a 32-byte version-0 witness program, a pure
/// function of the program bytes.
#[verifier::external_body]
fn encode_p2wsh_address(program: &Vec<u8>) -> (r: String)
    requires
        program@.len() == 32,
    ensures
        r@ == segwit_v0_address(program@),
{
    let wp = bitcoin::WitnessProgram::new(
        bitcoin::blockdata::script::witness_version::WitnessVersion::V0,
        program.as_slice(),
    ).expect("32-byte version-0 witness program");
    bitcoin::Address::from_witness_program(wp, bitcoin::KnownHrp::Mainnet).to_string()
}

// ---------------------------------------------------------------------------
// The policy itself
// ---------------------------------------------------------------------------

/// The three identities plus the derived locking script bytes and the
/// network deposit address. Created once from three identities; never
/// mutated. The script bytes are the canonical authority for who can
/// spend.
#[derive(Debug)]
pub struct EscrowPolicy {
    pub(crate) buyer: Identity,
    pub(crate) seller: Identity,
    pub(crate) arbitrator: Identity,
    pub(crate) script: Vec<u8>,
    pub(crate) address: String,
}

impl EscrowPolicy {
    /// The buyer's key bytes.
    pub open(crate) spec fn spec_buyer(&self) -> Seq<u8> {
        self.buyer@
    }

    /// The seller's key bytes.
    pub open(crate) spec fn spec_seller(&self) -> Seq<u8> {
        self.seller@
    }

    /// The arbitrator's key bytes.
    pub open(crate) spec fn spec_arbitrator(&self) -> Seq<u8> {
        self.arbitrator@
    }

    /// The locking script bytes.
    pub open(crate) spec fn spec_script(&self) -> Seq<u8> {
        self.script@
    }

    /// The deposit address characters.
    pub open(crate) spec fn spec_address(&self) -> Seq<char> {
        self.address@
    }

    /// The policy's invariant: all three keys are valid 33-byte curve
    /// points, the script is the canonical 2-of-3 script over them, and
    /// the address is derived from the script's SHA-256 hash.
    pub open spec fn wf(&self) -> bool {
        &&& self.spec_buyer().len() == 33 && point_valid(self.spec_buyer())
        &&& self.spec_seller().len() == 33 && point_valid(self.spec_seller())
        &&& self.spec_arbitrator().len() == 33 && point_valid(self.spec_arbitrator())
        &&& self.spec_script() == policy_script(
            self.spec_buyer(),
            self.spec_seller(),
            self.spec_arbitrator(),
        )
        &&& self.spec_address() == segwit_v0_address(sha256_of(self.spec_script()))
    }

    /// The locking script bytes.
    pub fn script(&self) -> (r: &Vec<u8>)
        ensures
            r@ == self.spec_script(),
    {
        &self.script
    }

    /// The deposit address.
    pub fn address(&self) -> (r: &String)
        ensures
            r@ == self.spec_address(),
    {
        &self.address
    }

    /// The buyer identity.
    pub fn buyer(&self) -> (r: &Identity)
        ensures
            r@ == self.spec_buyer(),
    {
        &self.buyer
    }

    /// The seller identity.
    pub fn seller(&self) -> (r: &Identity)
        ensures
            r@ == self.spec_seller(),
    {
        &self.seller
    }

    /// The arbitrator identity.
    pub fn arbitrator(&self) -> (r: &Identity)
        ensures
            r@ == self.spec_arbitrator(),
    {
        &self.arbitrator
    }
}

/// Law: building the policy is deterministic and order-independent. Any
/// two well-formed policies over the same three participant keys — in
/// whatever order the roles were assigned — carry the identical locking
/// script and the identical deposit address.
pub proof fn lemma_policy_deterministic(p1: &EscrowPolicy, p2: &EscrowPolicy)
    requires
        p1.wf(),
        p2.wf(),
        same_keys(
            (p1.spec_buyer(), p1.spec_seller(), p1.spec_arbitrator()),
            (p2.spec_buyer(), p2.spec_seller(), p2.spec_arbitrator()),
        ),
    ensures
        p1.spec_script() == p2.spec_script(),
        p1.spec_address() == p2.spec_address(),
{
    lemma_policy_script_order_independent(
        p1.spec_buyer(),
        p1.spec_seller(),
        p1.spec_arbitrator(),
    );
}

/// Orders two owned byte vectors lexicographically.
fn sort2_vec(a: Vec<u8>, b: Vec<u8>) -> (r: (Vec<u8>, Vec<u8>))
    ensures
        (r.0@, r.1@) == sort2(a@, b@),
{
    if lex_le_bytes(&a, &b) {
        (a, b)
    } else {
        (b, a)
    }
}

/// Orders three owned byte vectors lexicographically.
pub(crate) fn sort3_vec(a: Vec<u8>, b: Vec<u8>, c: Vec<u8>) -> (r: (Vec<u8>, Vec<u8>, Vec<u8>))
    ensures
        (r.0@, r.1@, r.2@) == sort3(a@, b@, c@),
{
    let (x, y) = sort2_vec(a, b);
    let (y2, z) = sort2_vec(y, c);
    let (x2, y3) = sort2_vec(x, y2);
    (x2, y3, z)
}

/// Derives the escrow policy for the three participants: the canonical
/// 2-of-3 locking script over their keys and the deposit address derived
/// from the script's SHA-256 hash. Each key is re-validated defensively
/// against the curve library; the construction fails with
/// `ScriptConstructionError` exactly when one fails.
pub fn build_policy(buyer: &Identity, seller: &Identity, arbitrator: &Identity) -> (r: Result<
    EscrowPolicy,
    EscrowError,
>)
    ensures
        match r {
            Ok(p) => {
                &&& buyer.wf() && seller.wf() && arbitrator.wf()
                &&& p.wf()
                &&& p.spec_buyer() == buyer@
                &&& p.spec_seller() == seller@
                &&& p.spec_arbitrator() == arbitrator@
            },
            Err(e) => {
                &&& e == EscrowError::ScriptConstructionError
                &&& !(buyer.wf() && seller.wf() && arbitrator.wf())
            },
        },
{
    if !buyer.revalidate() || !seller.revalidate() || !arbitrator.revalidate() {
        return Err(EscrowError::ScriptConstructionError);
    }
    let (k0, k1, k2) = sort3_vec(
        copy_bytes(buyer.key_bytes()),
        copy_bytes(seller.key_bytes()),
        copy_bytes(arbitrator.key_bytes()),
    );
    let mut script: Vec<u8> = Vec::new();
    script.push(OP_2);
    script.push(OP_PUSHBYTES_33);
    push_all(&mut script, &k0);
    script.push(OP_PUSHBYTES_33);
    push_all(&mut script, &k1);
    script.push(OP_PUSHBYTES_33);
    push_all(&mut script, &k2);
    script.push(OP_3);
    script.push(OP_CHECKMULTISIG);
    proof {
        reveal(multisig_2of3_script);
        assert(script@ =~= multisig_2of3_script(k0@, k1@, k2@));
    }
    let script_hash = sha256(&script);
    let address = encode_p2wsh_address(&script_hash);
    Ok(
        EscrowPolicy {
            buyer: buyer.duplicate(),
            seller: seller.duplicate(),
            arbitrator: arbitrator.duplicate(),
            script,
            address,
        },
    )
}

} // verus!
