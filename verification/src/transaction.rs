//! Exact wire-size estimation for compact-encoded transactions.
//!
//! The size of a serialized transaction is computed without building the
//! transaction: signatures, message header, account addresses, blockhash,
//! instructions and optional address-table lookups are each accounted for,
//! with every variable-length array prefixed by its compact-u16 length.

use crate::address::contains_address;
use crate::address::Address;
use crate::error::SolendError;
use vstd::prelude::*;

verus! {

/// Default compute budget per instruction when none is set explicitly.
pub const DEFAULT_COMPUTE_BUDGET_UNITS: usize = 200000;

/// The maximum serialized size of a transaction packet.
pub const PACKET_DATA_SIZE: usize = 1232;

/// Packet budget left after reserving room for compute-budget instructions.
pub const PACKET_DATA_SIZE_WITH_ROOM_FOR_COMPUTE_BUDGET: usize = 1232 - 52;

/// One account reference inside an instruction.
#[derive(Debug, Clone)]
pub struct AccountMeta {
    pub pubkey: Address,
    pub is_signer: bool,
    pub is_writable: bool,
}

/// Mathematical model of an account reference.
pub struct AccountMetaV {
    pub pubkey: Seq<u8>,
    pub is_signer: bool,
    pub is_writable: bool,
}

impl DeepView for AccountMeta {
    type V = AccountMetaV;

    open spec fn deep_view(&self) -> AccountMetaV {
        AccountMetaV { pubkey: self.pubkey@, is_signer: self.is_signer, is_writable: self.is_writable }
    }
}

/// An instruction whose serialized size is to be estimated: the program it
/// calls, the accounts it references, and its opaque data payload.
#[derive(Debug, Clone)]
pub struct Instruction {
    pub program_id: Address,
    pub accounts: Vec<AccountMeta>,
    pub data: Vec<u8>,
}

/// Mathematical model of an instruction.
pub struct InstructionV {
    pub program_id: Seq<u8>,
    pub accounts: Seq<AccountMetaV>,
    pub data: Seq<u8>,
}

impl DeepView for Instruction {
    type V = InstructionV;

    open spec fn deep_view(&self) -> InstructionV {
        InstructionV {
            program_id: self.program_id@,
            accounts: self.accounts.deep_view(),
            data: self.data@,
        }
    }
}

/// Priority fee settings handed to transaction builders.
#[derive(Debug, Clone)]
pub struct PriorityFeeConfig {
    pub compute_unit_price_micro_lamports: Option<usize>,
    pub tight_compute_budget: Option<bool>,
    pub jito_tip_lamports: Option<bool>,
    pub jito_bundle_size: Option<bool>,
}

/// The stock priority fee configuration: a 50000 micro-lamport price.
pub fn default_priority_fee_config() -> (r: PriorityFeeConfig)
    ensures
        r.compute_unit_price_micro_lamports == Some(50000usize),
        r.tight_compute_budget is None,
        r.jito_tip_lamports is None,
        r.jito_bundle_size is None,
{
    PriorityFeeConfig {
        compute_unit_price_micro_lamports: Some(50000),
        tight_compute_budget: None,
        jito_tip_lamports: None,
        jito_bundle_size: None,
    }
}

/// The number of bytes a count occupies in the compact-u16 encoding:
/// 1 below 128, 2 below 16384, 3 otherwise.
pub open spec fn spec_compact_u16_len(n: int) -> int {
    if n < 128 {
        1
    } else if n < 16384 {
        2
    } else {
        3
    }
}

/// 1 for true, 0 for false.
pub fn boolean_to_int(b: bool) -> (r: u8)
    ensures
        r == (if b { 1u8 } else { 0u8 }),
{
    match b {
        true => 1,
        false => 0,
    }
}

/// The number of bytes `n` occupies when serialized as a compact-u16, the
/// variable-width integer that prefixes every compact array.
pub fn get_size_of_compressed_u16(n: &u16) -> (r: u8)
    ensures
        r == spec_compact_u16_len(*n as int),
{
    1 + boolean_to_int(n >= &128) + boolean_to_int(n >= &16384)
}

/// Whether the instruction references account `a`, either as its program or
/// through its account list.
pub open spec fn ix_references(ix: InstructionV, a: Seq<u8>) -> bool {
    ix.program_id == a || exists|j: int| 0 <= j < ix.accounts.len() && ix.accounts[j].pubkey == a
}

/// Whether the instruction marks account `a` as a signer.
pub open spec fn ix_signs(ix: InstructionV, a: Seq<u8>) -> bool {
    exists|j: int|
        0 <= j < ix.accounts.len() && ix.accounts[j].pubkey == a && ix.accounts[j].is_signer
}

/// The distinct program identifiers referenced by the instructions.
pub open spec fn programs_set(instrs: Seq<InstructionV>) -> Set<Seq<u8>> {
    Set::new(|a: Seq<u8>| exists|ix: InstructionV| #[trigger] instrs.contains(ix) && ix.program_id == a)
}

/// The distinct account identifiers referenced by the instructions,
/// program identifiers included.
pub open spec fn accounts_set(instrs: Seq<InstructionV>) -> Set<Seq<u8>> {
    Set::new(|a: Seq<u8>| exists|ix: InstructionV| #[trigger] instrs.contains(ix) && ix_references(ix, a))
}

/// The distinct account identifiers marked as signers by any instruction.
pub open spec fn signers_set(instrs: Seq<InstructionV>) -> Set<Seq<u8>> {
    Set::new(|a: Seq<u8>| exists|ix: InstructionV| #[trigger] instrs.contains(ix) && ix_signs(ix, a))
}

/// The serialized size of one instruction: a program index byte, the
/// compact-length-prefixed account index array, and the
/// compact-length-prefixed data array.
pub open spec fn spec_ix_size(ix: InstructionV) -> int {
    1 + spec_compact_u16_len(ix.accounts.len() as int) + ix.accounts.len()
        + spec_compact_u16_len(ix.data.len() as int) + ix.data.len()
}

/// The summed serialized sizes of a sequence of instructions.
pub open spec fn sum_ix_sizes(instrs: Seq<InstructionV>) -> int
    decreases instrs.len(),
{
    if instrs.len() == 0 {
        0
    } else {
        sum_ix_sizes(instrs.drop_last()) + spec_ix_size(instrs.last())
    }
}

/// Every instruction occupies at least 3 bytes, so the sum grows with each
/// instruction and never drops below zero.
pub proof fn lemma_sum_ix_sizes_nonneg(instrs: Seq<InstructionV>)
    ensures
        sum_ix_sizes(instrs) >= 3 * instrs.len(),
    decreases instrs.len(),
{
    if instrs.len() > 0 {
        lemma_sum_ix_sizes_nonneg(instrs.drop_last());
    }
}

/// Dropping a suffix never increases the summed instruction size.
pub proof fn lemma_sum_ix_sizes_prefix(instrs: Seq<InstructionV>, k: int)
    requires
        0 <= k <= instrs.len(),
    ensures
        sum_ix_sizes(instrs.subrange(0, k)) <= sum_ix_sizes(instrs),
    decreases instrs.len(),
{
    if k == instrs.len() {
        assert(instrs.subrange(0, k) =~= instrs);
    } else {
        assert(instrs.len() > 0);
        assert(instrs.subrange(0, k) =~= instrs.drop_last().subrange(0, k));
        lemma_sum_ix_sizes_prefix(instrs.drop_last(), k);
        assert(spec_ix_size(instrs.last()) >= 0);
    }
}

/// Removing the instruction at index `i` removes exactly its size from the sum.
pub proof fn lemma_sum_ix_sizes_remove(instrs: Seq<InstructionV>, i: int)
    requires
        0 <= i < instrs.len(),
    ensures
        sum_ix_sizes(instrs) == sum_ix_sizes(instrs.remove(i)) + spec_ix_size(instrs[i]),
    decreases instrs.len(),
{
    if i == instrs.len() - 1 {
        assert(instrs.remove(i) =~= instrs.drop_last());
    } else {
        let shorter = instrs.drop_last();
        assert(instrs.remove(i).drop_last() =~= shorter.remove(i));
        assert(instrs.remove(i).last() == instrs.last());
        assert(instrs.remove(i).len() == instrs.len() - 1);
        lemma_sum_ix_sizes_remove(shorter, i);
    }
}

/// The account identifiers among the first `j` account references of one
/// instruction.
pub open spec fn keys_set(ix: InstructionV, j: int) -> Set<Seq<u8>> {
    Set::new(|a: Seq<u8>| exists|k: int| 0 <= k < j && ix.accounts[k].pubkey == a)
}

/// The signer identifiers among the first `j` account references of one
/// instruction.
pub open spec fn signer_keys_set(ix: InstructionV, j: int) -> Set<Seq<u8>> {
    Set::new(
        |a: Seq<u8>|
            exists|k: int| 0 <= k < j && ix.accounts[k].pubkey == a && ix.accounts[k].is_signer,
    )
}

/// The key sets of one instruction grow one reference at a time.
pub proof fn lemma_keys_set_step(ix: InstructionV, j: int)
    requires
        0 <= j < ix.accounts.len(),
    ensures
        keys_set(ix, j + 1) =~= keys_set(ix, j).insert(ix.accounts[j].pubkey),
        signer_keys_set(ix, j + 1) =~= if ix.accounts[j].is_signer {
            signer_keys_set(ix, j).insert(ix.accounts[j].pubkey)
        } else {
            signer_keys_set(ix, j)
        },
{
    assert forall|a: Seq<u8>| keys_set(ix, j).insert(ix.accounts[j].pubkey).contains(a) implies
        keys_set(ix, j + 1).contains(a) by {
        if a == ix.accounts[j].pubkey {
            assert(ix.accounts[j].pubkey == a);
        }
    }
    if ix.accounts[j].is_signer {
        assert forall|a: Seq<u8>|
            signer_keys_set(ix, j).insert(ix.accounts[j].pubkey).contains(a) implies
            signer_keys_set(ix, j + 1).contains(a) by {
            if a == ix.accounts[j].pubkey {
                assert(ix.accounts[j].pubkey == a && ix.accounts[j].is_signer);
            }
        }
    }
}

/// Both key sets of one instruction are finite.
pub proof fn lemma_keys_set_finite(ix: InstructionV, j: int)
    requires
        0 <= j <= ix.accounts.len(),
    ensures
        keys_set(ix, j).finite(),
        signer_keys_set(ix, j).finite(),
    decreases j,
{
    if j == 0 {
        assert(keys_set(ix, 0) =~= Set::<Seq<u8>>::empty());
        assert(signer_keys_set(ix, 0) =~= Set::<Seq<u8>>::empty());
    } else {
        lemma_keys_set_finite(ix, j - 1);
        lemma_keys_set_step(ix, j - 1);
    }
}

/// Appending one instruction extends the three collected sets by exactly
/// that instruction's program, accounts and signers.
pub proof fn lemma_sets_extend(s: Seq<InstructionV>, i: int)
    requires
        0 <= i < s.len(),
    ensures
        programs_set(s.subrange(0, i + 1)) =~= programs_set(s.subrange(0, i)).insert(
            s[i].program_id,
        ),
        accounts_set(s.subrange(0, i + 1)) =~= accounts_set(s.subrange(0, i)).insert(
            s[i].program_id,
        ).union(keys_set(s[i], s[i].accounts.len() as int)),
        signers_set(s.subrange(0, i + 1)) =~= signers_set(s.subrange(0, i)).union(
            signer_keys_set(s[i], s[i].accounts.len() as int),
        ),
{
    let pre = s.subrange(0, i);
    let post = s.subrange(0, i + 1);
    assert(post =~= pre.push(s[i]));
    assert forall|ix: InstructionV| post.contains(ix) implies pre.contains(ix) || ix == s[i] by {
        let k = choose|k: int| 0 <= k < post.len() && post[k] == ix;
        if k < pre.len() {
            assert(pre[k] == ix);
        }
    }
    assert forall|ix: InstructionV| pre.contains(ix) implies post.contains(ix) by {
        let k = choose|k: int| 0 <= k < pre.len() && pre[k] == ix;
        assert(post[k] == ix);
    }
    assert(post[i] == s[i]);
    assert(post.contains(s[i]));

    assert forall|a: Seq<u8>| programs_set(post).contains(a) implies programs_set(pre).insert(
        s[i].program_id,
    ).contains(a) by {
        let ix = choose|ix: InstructionV| #[trigger] post.contains(ix) && ix.program_id == a;
        if ix != s[i] {
            assert(pre.contains(ix));
        }
    }

    assert forall|a: Seq<u8>| accounts_set(post).contains(a) implies accounts_set(pre).insert(
        s[i].program_id,
    ).union(keys_set(s[i], s[i].accounts.len() as int)).contains(a) by {
        let ix = choose|ix: InstructionV| #[trigger] post.contains(ix) && ix_references(ix, a);
        if ix == s[i] {
            if ix.program_id != a {
                let j = choose|j: int| 0 <= j < ix.accounts.len() && ix.accounts[j].pubkey == a;
                assert(keys_set(s[i], s[i].accounts.len() as int).contains(a));
            }
        } else {
            assert(pre.contains(ix));
        }
    }
    assert forall|a: Seq<u8>| accounts_set(pre).insert(s[i].program_id).union(
        keys_set(s[i], s[i].accounts.len() as int),
    ).contains(a) implies accounts_set(post).contains(a) by {
        if accounts_set(pre).contains(a) {
            let ix = choose|ix: InstructionV| #[trigger] pre.contains(ix) && ix_references(ix, a);
            assert(post.contains(ix));
        } else if a == s[i].program_id {
            assert(ix_references(s[i], a));
        } else {
            let k = choose|k: int|
                0 <= k < s[i].accounts.len() && s[i].accounts[k].pubkey == a;
            assert(ix_references(s[i], a));
        }
    }

    assert forall|a: Seq<u8>| signers_set(post).contains(a) implies signers_set(pre).union(
        signer_keys_set(s[i], s[i].accounts.len() as int),
    ).contains(a) by {
        let ix = choose|ix: InstructionV| #[trigger] post.contains(ix) && ix_signs(ix, a);
        if ix == s[i] {
            assert(signer_keys_set(s[i], s[i].accounts.len() as int).contains(a));
        } else {
            assert(pre.contains(ix));
        }
    }
    assert forall|a: Seq<u8>| signers_set(pre).union(
        signer_keys_set(s[i], s[i].accounts.len() as int),
    ).contains(a) implies signers_set(post).contains(a) by {
        if signers_set(pre).contains(a) {
            let ix = choose|ix: InstructionV| #[trigger] pre.contains(ix) && ix_signs(ix, a);
            assert(post.contains(ix));
        } else {
            assert(ix_signs(s[i], a));
        }
    }
}

/// The three collected sets of any instruction sequence are finite.
pub proof fn lemma_sets_finite(s: Seq<InstructionV>)
    ensures
        programs_set(s).finite(),
        accounts_set(s).finite(),
        signers_set(s).finite(),
    decreases s.len(),
{
    if s.len() == 0 {
        assert forall|ix: InstructionV| !(#[trigger] s.contains(ix)) by {}
        assert(programs_set(s) =~= Set::<Seq<u8>>::empty());
        assert(accounts_set(s) =~= Set::<Seq<u8>>::empty());
        assert(signers_set(s) =~= Set::<Seq<u8>>::empty());
    } else {
        let n = s.len() as int;
        lemma_sets_finite(s.subrange(0, n - 1));
        lemma_sets_extend(s, n - 1);
        lemma_keys_set_finite(s[n - 1], s[n - 1].accounts.len() as int);
        assert(s.subrange(0, n) =~= s);
    }
}

/// Every program identifier and every signer identifier is itself a
/// referenced account.
pub proof fn lemma_programs_signers_subset(s: Seq<InstructionV>)
    ensures
        programs_set(s).subset_of(accounts_set(s)),
        signers_set(s).subset_of(accounts_set(s)),
{
    assert forall|a: Seq<u8>| programs_set(s).contains(a) implies accounts_set(s).contains(a) by {
        let ix = choose|ix: InstructionV| #[trigger] s.contains(ix) && ix.program_id == a;
        assert(ix_references(ix, a));
    }
    assert forall|a: Seq<u8>| signers_set(s).contains(a) implies accounts_set(s).contains(a) by {
        let ix = choose|ix: InstructionV| #[trigger] s.contains(ix) && ix_signs(ix, a);
        let j = choose|j: int|
            0 <= j < ix.accounts.len() && ix.accounts[j].pubkey == a && ix.accounts[j].is_signer;
        assert(ix_references(ix, a));
    }
}

/// Two sequences holding the same instructions in any order have the same
/// summed size.
pub proof fn lemma_sum_ix_sizes_permutation(s1: Seq<InstructionV>, s2: Seq<InstructionV>)
    requires
        s1.to_multiset() == s2.to_multiset(),
    ensures
        sum_ix_sizes(s1) == sum_ix_sizes(s2),
    decreases s1.len(),
{
    s1.to_multiset_ensures();
    s2.to_multiset_ensures();
    if s1.len() == 0 {
        assert(s2.to_multiset().len() == 0);
        assert(s2.len() == 0);
    } else {
        let x = s1.last();
        assert(s1.contains(x));
        assert(s1.to_multiset().count(x) > 0);
        assert(s2.to_multiset().count(x) > 0);
        assert(s2.contains(x));
        let i = choose|i: int| 0 <= i < s2.len() && s2[i] == x;
        assert(s1.drop_last() =~= s1.remove(s1.len() - 1));
        assert(s1.remove(s1.len() - 1).to_multiset() == s1.to_multiset().remove(x));
        assert(s2.remove(i).to_multiset() == s2.to_multiset().remove(x));
        lemma_sum_ix_sizes_permutation(s1.drop_last(), s2.remove(i));
        lemma_sum_ix_sizes_remove(s2, i);
    }
}

/// Appending an element to an identifier sequence inserts it into the
/// sequence's set of elements.
proof fn lemma_addr_push_to_set(s: Seq<Seq<u8>>, a: Seq<u8>)
    ensures
        s.push(a).to_set() =~= s.to_set().insert(a),
{
    assert forall|x: Seq<u8>| s.push(a).to_set().contains(x) implies s.to_set().insert(a).contains(
        x,
    ) by {
        let i = choose|i: int| 0 <= i < s.push(a).len() && s.push(a)[i] == x;
        if i < s.len() {
            assert(s[i] == x);
        }
    }
    assert forall|x: Seq<u8>| s.to_set().insert(a).contains(x) implies s.push(a).to_set().contains(
        x,
    ) by {
        if s.to_set().contains(x) {
            let i = choose|i: int| 0 <= i < s.len() && s[i] == x;
            assert(s.push(a)[i] == x);
        } else {
            assert(s.push(a)[s.len() as int] == x);
        }
    }
}

/// Appending an element that is not yet present keeps the sequence free of
/// duplicates.
proof fn lemma_addr_push_no_dup(s: Seq<Seq<u8>>, a: Seq<u8>)
    requires
        s.no_duplicates(),
        !s.contains(a),
    ensures
        s.push(a).no_duplicates(),
{
    assert forall|i: int, j: int|
        0 <= i < s.push(a).len() && 0 <= j < s.push(a).len() && i != j implies s.push(a)[i]
        != s.push(a)[j] by {
        if i < s.len() && j < s.len() {
        } else if j == s.len() {
            assert(forall|k: int| 0 <= k < s.len() ==> s[k] != a);
        } else {
            assert(forall|k: int| 0 <= k < s.len() ==> s[k] != a);
        }
    }
}

/// Taking one more element of a sequence appends exactly that element.
proof fn lemma_addr_subrange_push(s: Seq<Seq<u8>>, k: int)
    requires
        0 <= k < s.len(),
    ensures
        s.subrange(0, k + 1) =~= s.subrange(0, k).push(s[k]),
{
}

/// Pushes the address unless an equal one is already held; the element set
/// afterwards always holds the address.
fn push_unique(v: &mut Vec<Address>, a: &Address)
    requires
        old(v).deep_view().no_duplicates(),
    ensures
        final(v).deep_view().no_duplicates(),
        final(v).deep_view().to_set() =~= old(v).deep_view().to_set().insert(a@),
        final(v)@.len() <= old(v)@.len() + 1,
{
    let ghost pre = v.deep_view();
    if !contains_address(v, a) {
        v.push(a.clone());
        proof {
            assert(v.deep_view() =~= pre.push(a@));
            lemma_addr_push_no_dup(pre, a@);
            lemma_addr_push_to_set(pre, a@);
        }
    } else {
        proof {
            assert(pre.to_set().contains(a@));
            assert(pre.to_set().insert(a@) =~= pre.to_set());
        }
    }
}

/// Collects, in first-seen order and without duplicates, the program
/// identifiers, the signer identifiers, and all referenced account
/// identifiers (programs included) of the instruction list.
fn collect_distinct(instructions: &Vec<Instruction>) -> (r: (Vec<Address>, Vec<Address>, Vec<
    Address,
>))
    ensures
        r.0.deep_view().no_duplicates(),
        r.1.deep_view().no_duplicates(),
        r.2.deep_view().no_duplicates(),
        r.0.deep_view().to_set() =~= programs_set(instructions.deep_view()),
        r.1.deep_view().to_set() =~= signers_set(instructions.deep_view()),
        r.2.deep_view().to_set() =~= accounts_set(instructions.deep_view()),
{
    let ghost ivs = instructions.deep_view();
    let mut programs: Vec<Address> = Vec::new();
    let mut signers: Vec<Address> = Vec::new();
    let mut accounts: Vec<Address> = Vec::new();
    proof {
        assert(ivs.subrange(0, 0) =~= Seq::<InstructionV>::empty());
        assert forall|ix: InstructionV| !(#[trigger] Seq::<InstructionV>::empty().contains(ix))
            by {}
        assert(programs_set(ivs.subrange(0, 0)) =~= Set::<Seq<u8>>::empty());
        assert(signers_set(ivs.subrange(0, 0)) =~= Set::<Seq<u8>>::empty());
        assert(accounts_set(ivs.subrange(0, 0)) =~= Set::<Seq<u8>>::empty());
    }
    let mut i: usize = 0;
    while i < instructions.len()
        invariant
            i <= instructions@.len(),
            ivs == instructions.deep_view(),
            ivs.len() == instructions@.len(),
            programs.deep_view().no_duplicates(),
            signers.deep_view().no_duplicates(),
            accounts.deep_view().no_duplicates(),
            programs.deep_view().to_set() =~= programs_set(ivs.subrange(0, i as int)),
            signers.deep_view().to_set() =~= signers_set(ivs.subrange(0, i as int)),
            accounts.deep_view().to_set() =~= accounts_set(ivs.subrange(0, i as int)),
        decreases instructions@.len() - i,
    {
        let ix = &instructions[i];
        let ghost ixv = ivs[i as int];
        proof {
            assert(ixv == instructions@[i as int].deep_view());
        }
        push_unique(&mut programs, &ix.program_id);
        push_unique(&mut accounts, &ix.program_id);
        proof {
            assert(keys_set(ixv, 0) =~= Set::<Seq<u8>>::empty());
            assert(signer_keys_set(ixv, 0) =~= Set::<Seq<u8>>::empty());
        }
        let mut j: usize = 0;
        while j < ix.accounts.len()
            invariant
                j <= ix.accounts@.len(),
                ivs == instructions.deep_view(),
                ivs.len() == instructions@.len(),
                i < instructions@.len(),
                ixv == ivs[i as int],
                ix == instructions@[i as int],
                ixv.accounts.len() == ix.accounts@.len(),
                programs.deep_view().no_duplicates(),
                signers.deep_view().no_duplicates(),
                accounts.deep_view().no_duplicates(),
                programs.deep_view().to_set() =~= programs_set(ivs.subrange(0, i as int)).insert(
                    ixv.program_id,
                ),
                signers.deep_view().to_set() =~= signers_set(ivs.subrange(0, i as int)).union(
                    signer_keys_set(ixv, j as int),
                ),
                accounts.deep_view().to_set() =~= accounts_set(ivs.subrange(0, i as int)).insert(
                    ixv.program_id,
                ).union(keys_set(ixv, j as int)),
            decreases ix.accounts@.len() - j,
        {
            let meta = &ix.accounts[j];
            proof {
                assert(ixv.accounts[j as int] == ix.accounts@[j as int].deep_view());
                lemma_keys_set_step(ixv, j as int);
            }
            if meta.is_signer {
                push_unique(&mut signers, &meta.pubkey);
            }
            push_unique(&mut accounts, &meta.pubkey);
            j = j + 1;
        }
        proof {
            lemma_sets_extend(ivs, i as int);
        }
        i = i + 1;
    }
    proof {
        assert(ivs.subrange(0, ivs.len() as int) =~= ivs);
    }
    (programs, signers, accounts)
}

/// The distinct account identifiers that stay inline in the serialized
/// message: with no lookup table, every referenced account; with one, the
/// referenced accounts not resolved through the table, together with every
/// program and every signer, which must always be inline.
pub open spec fn inline_accounts_set(
    instrs: Seq<InstructionV>,
    lookup: Option<Seq<Seq<u8>>>,
) -> Set<Seq<u8>> {
    match lookup {
        None => accounts_set(instrs),
        Some(l) => accounts_set(instrs).difference(l.to_set()).union(programs_set(instrs)).union(
            signers_set(instrs),
        ),
    }
}

/// How many referenced accounts are resolved through the lookup table
/// instead of being sent inline.
pub open spec fn spec_num_lookups(instrs: Seq<InstructionV>, lookup: Option<Seq<Seq<u8>>>) -> int {
    accounts_set(instrs).len() - inline_accounts_set(instrs, lookup).len()
}

/// The exact byte size of the compact-encoded transaction message built
/// from the instructions: the signature array, the 3-byte message header,
/// the account address array, the recent blockhash, the instruction array,
/// and, for versioned transactions, the version byte, the lookup-table
/// count, at most one lookup-table address with its index-array length, and
/// one index byte per looked-up account.
pub open spec fn spec_tx_size(
    instrs: Seq<InstructionV>,
    versioned: bool,
    lookup: Option<Seq<Seq<u8>>>,
) -> int {
    let ns = signers_set(instrs).len() as int;
    let na = inline_accounts_set(instrs, lookup).len() as int;
    let ni = instrs.len() as int;
    let nl = spec_num_lookups(instrs, lookup);
    spec_compact_u16_len(ns) + 64 * ns + 3 + spec_compact_u16_len(na) + 32 * na + 32
        + spec_compact_u16_len(ni) + sum_ix_sizes(instrs) + (if versioned {
        2int
    } else {
        0int
    }) + (if versioned && nl != 0 {
        32int
    } else {
        0int
    }) + (if versioned && nl != 0 {
        2int
    } else {
        0int
    }) + nl
}

/// Whether some instruction references more than 65535 accounts or carries
/// more than 65535 bytes of data, so that a per-instruction count cannot be
/// converted to the wire's 16-bit compact form.
pub open spec fn spec_ix_overflow(instrs: Seq<InstructionV>) -> bool {
    exists|i: int|
        0 <= i < instrs.len() && (instrs[i].accounts.len() > 65535 || instrs[i].data.len() > 65535)
}

/// The estimator's outcome: the exact size when every intermediate count
/// fits the 16-bit range, and an overflow error otherwise.
pub open spec fn spec_tx_size_result(
    instrs: Seq<InstructionV>,
    versioned: bool,
    lookup: Option<Seq<Seq<u8>>>,
) -> Result<u16, SolendError> {
    if spec_ix_overflow(instrs) || spec_tx_size(instrs, versioned, lookup) > 65535 {
        Err(SolendError::ConversionWouldOverflow)
    } else {
        Ok(spec_tx_size(instrs, versioned, lookup) as u16)
    }
}

/// The inline account set is a subset of the referenced accounts, so the
/// number of looked-up accounts is never negative; and every term of the
/// size formula is bounded below by its parts.
pub proof fn lemma_tx_size_bounds(
    instrs: Seq<InstructionV>,
    versioned: bool,
    lookup: Option<Seq<Seq<u8>>>,
)
    ensures
        0 <= spec_num_lookups(instrs, lookup) <= accounts_set(instrs).len(),
        inline_accounts_set(instrs, lookup).finite(),
        spec_tx_size(instrs, versioned, lookup) >= sum_ix_sizes(instrs),
        spec_tx_size(instrs, versioned, lookup) >= 64 * signers_set(instrs).len(),
        spec_tx_size(instrs, versioned, lookup) >= 32 * inline_accounts_set(instrs, lookup).len(),
        spec_tx_size(instrs, versioned, lookup) >= spec_num_lookups(instrs, lookup),
        spec_tx_size(instrs, versioned, lookup) >= 38,
{
    lemma_sets_finite(instrs);
    lemma_programs_signers_subset(instrs);
    let acc = accounts_set(instrs);
    let inl = inline_accounts_set(instrs, lookup);
    match lookup {
        None => {
            assert(inl =~= acc);
            vstd::set_lib::lemma_len_subset(inl, acc);
        },
        Some(l) => {
            assert(inl.subset_of(acc));
            vstd::set_lib::lemma_len_subset(inl, acc);
        },
    }
    lemma_sum_ix_sizes_nonneg(instrs);
}

/// The exact byte size of a transaction built from the instructions: the
/// compact array of signatures, the 3-byte message header, the compact
/// array of distinct account addresses, the recent blockhash, the compact
/// array of instructions, and — for versioned transactions — the version
/// byte, the lookup-table count, at most one address-lookup-table address
/// with its index-array length prefix, and one index byte per account
/// resolved through the table. Fails with a conversion error when any
/// count, or the total, exceeds the 16-bit range of the wire format.
pub fn get_size_of_transaction(
    instructions: Vec<Instruction>,
    versioned_transaction: bool,
    address_lookup_table_addresses: Option<Vec<Address>>,
) -> (r: Result<u16, SolendError>)
    ensures
        r == spec_tx_size_result(
            instructions.deep_view(),
            versioned_transaction,
            address_lookup_table_addresses.deep_view(),
        ),
{
    let ghost ivs = instructions.deep_view();
    let ghost lkv = address_lookup_table_addresses.deep_view();
    proof {
        lemma_tx_size_bounds(ivs, versioned_transaction, lkv);
    }

    let (programs, signers, accounts) = collect_distinct(&instructions);

    // Per-instruction serialized sizes, kept at or below the 16-bit cap.
    let mut ix_total: u64 = 0;
    let mut i: usize = 0;
    proof {
        assert(ivs.subrange(0, 0) =~= Seq::<InstructionV>::empty());
    }
    while i < instructions.len()
        invariant
            i <= instructions@.len(),
            ivs == instructions.deep_view(),
            lkv == address_lookup_table_addresses.deep_view(),
            ivs.len() == instructions@.len(),
            ix_total == sum_ix_sizes(ivs.subrange(0, i as int)),
            ix_total <= 65535,
            forall|k: int|
                0 <= k < i ==> ivs[k].accounts.len() <= 65535 && ivs[k].data.len() <= 65535,
        decreases instructions@.len() - i,
    {
        let ix = &instructions[i];
        proof {
            assert(ivs[i as int] == instructions@[i as int].deep_view());
        }
        if ix.accounts.len() > 65535 || ix.data.len() > 65535 {
            proof {
                assert(ivs[i as int].accounts.len() > 65535 || ivs[i as int].data.len() > 65535);
                assert(spec_ix_overflow(ivs));
            }
            return Err(SolendError::ConversionWouldOverflow);
        }
        let acc_len: u16 = ix.accounts.len() as u16;
        let data_len: u16 = ix.data.len() as u16;
        let w_acc: u64 = get_size_of_compressed_u16(&acc_len) as u64;
        let w_data: u64 = get_size_of_compressed_u16(&data_len) as u64;
        let per: u64 = 1 + w_acc + (acc_len as u64) + w_data + (data_len as u64);
        proof {
            assert(per == spec_ix_size(ivs[i as int]));
            assert(ivs.subrange(0, i + 1).drop_last() =~= ivs.subrange(0, i as int));
            assert(ivs.subrange(0, i + 1).last() == ivs[i as int]);
            assert(sum_ix_sizes(ivs.subrange(0, i + 1)) == ix_total + per);
        }
        if ix_total + per > 65535 {
            proof {
                lemma_sum_ix_sizes_prefix(ivs, i + 1);
                assert(sum_ix_sizes(ivs) > 65535);
                assert(spec_tx_size(ivs, versioned_transaction, lkv) > 65535);
            }
            return Err(SolendError::ConversionWouldOverflow);
        }
        ix_total = ix_total + per;
        i = i + 1;
    }
    proof {
        assert(ivs.subrange(0, ivs.len() as int) =~= ivs);
        assert(ix_total == sum_ix_sizes(ivs));
        assert(!spec_ix_overflow(ivs));
    }

    // Accounts resolved through the lookup table leave the inline list;
    // programs and signers always stay inline.
    let total_accounts = accounts.len();
    proof {
        accounts.deep_view().unique_seq_to_set();
        signers.deep_view().unique_seq_to_set();
    }
    let mut inline: Vec<Address>;
    let mut number_of_address_lookups: u64 = 0;
    match &address_lookup_table_addresses {
        None => {
            inline = accounts;
            proof {
                assert(inline.deep_view().to_set() =~= inline_accounts_set(ivs, lkv));
                assert(spec_num_lookups(ivs, lkv) == 0);
            }
        },
        Some(lookup) => {
            let ghost lset = lookup.deep_view().to_set();
            let ghost av = accounts.deep_view();
            let mut filtered: Vec<Address> = Vec::new();
            proof {
                assert(av.subrange(0, 0) =~= Seq::<Seq<u8>>::empty());
                assert(Seq::<Seq<u8>>::empty().to_set() =~= Set::<Seq<u8>>::empty());
                assert(filtered.deep_view().to_set() =~= av.subrange(0, 0).to_set().difference(
                    lset,
                ));
            }
            let mut k: usize = 0;
            while k < accounts.len()
                invariant
                    k <= accounts@.len(),
                    av == accounts.deep_view(),
                    av.len() == accounts@.len(),
                    av.no_duplicates(),
                    lset == lookup.deep_view().to_set(),
                    filtered.deep_view().no_duplicates(),
                    filtered.deep_view().to_set() =~= av.subrange(0, k as int).to_set().difference(
                        lset,
                    ),
                decreases accounts@.len() - k,
            {
                let a = &accounts[k];
                proof {
                    assert(av[k as int] == a@);
                    lemma_addr_subrange_push(av, k as int);
                    lemma_addr_push_to_set(av.subrange(0, k as int), av[k as int]);
                }
                if !contains_address(lookup, a) {
                    let ghost pre = filtered.deep_view();
                    proof {
                        if av.subrange(0, k as int).contains(av[k as int]) {
                            let m = choose|m: int|
                                0 <= m < k && av.subrange(0, k as int)[m] == av[k as int];
                            assert(av[m] == av[k as int]);
                            assert(false);
                        }
                        assert(!av.subrange(0, k as int).to_set().contains(av[k as int]));
                        assert(!pre.to_set().contains(av[k as int]));
                        assert(!pre.contains(av[k as int]));
                        lemma_addr_push_no_dup(pre, av[k as int]);
                        lemma_addr_push_to_set(pre, av[k as int]);
                    }
                    filtered.push(a.clone());
                    proof {
                        assert(filtered.deep_view() =~= pre.push(av[k as int]));
                        assert(filtered.deep_view().to_set() =~= av.subrange(
                            0,
                            (k + 1) as int,
                        ).to_set().difference(lset));
                    }
                } else {
                    proof {
                        assert(lset.contains(av[k as int]));
                        assert(filtered.deep_view().to_set() =~= av.subrange(
                            0,
                            (k + 1) as int,
                        ).to_set().difference(lset));
                    }
                }
                k = k + 1;
            }
            proof {
                assert(av.subrange(0, av.len() as int) =~= av);
            }
            // Re-append every distinct program and signer identifier.
            let ghost base = av.to_set().difference(lset);
            let ghost pv = programs.deep_view();
            let mut m: usize = 0;
            proof {
                assert(pv.subrange(0, 0) =~= Seq::<Seq<u8>>::empty());
                assert(filtered.deep_view().to_set() =~= base.union(
                    pv.subrange(0, 0).to_set(),
                ));
            }
            while m < programs.len()
                invariant
                    m <= programs@.len(),
                    pv == programs.deep_view(),
                    pv.len() == programs@.len(),
                    filtered.deep_view().no_duplicates(),
                    filtered.deep_view().to_set() =~= base.union(pv.subrange(0, m as int).to_set()),
                decreases programs@.len() - m,
            {
                proof {
                    assert(pv[m as int] == programs@[m as int].deep_view());
                    lemma_addr_subrange_push(pv, m as int);
                    lemma_addr_push_to_set(pv.subrange(0, m as int), pv[m as int]);
                }
                push_unique(&mut filtered, &programs[m]);
                m = m + 1;
            }
            proof {
                assert(pv.subrange(0, pv.len() as int) =~= pv);
            }
            let ghost sv = signers.deep_view();
            let ghost base2 = base.union(pv.to_set());
            let mut q: usize = 0;
            proof {
                assert(sv.subrange(0, 0) =~= Seq::<Seq<u8>>::empty());
                assert(filtered.deep_view().to_set() =~= base2.union(
                    sv.subrange(0, 0).to_set(),
                ));
            }
            while q < signers.len()
                invariant
                    q <= signers@.len(),
                    sv == signers.deep_view(),
                    sv.len() == signers@.len(),
                    filtered.deep_view().no_duplicates(),
                    filtered.deep_view().to_set() =~= base2.union(
                        sv.subrange(0, q as int).to_set(),
                    ),
                decreases signers@.len() - q,
            {
                proof {
                    assert(sv[q as int] == signers@[q as int].deep_view());
                    lemma_addr_subrange_push(sv, q as int);
                    lemma_addr_push_to_set(sv.subrange(0, q as int), sv[q as int]);
                }
                push_unique(&mut filtered, &signers[q]);
                q = q + 1;
            }
            proof {
                assert(sv.subrange(0, sv.len() as int) =~= sv);
                assert(filtered.deep_view().to_set() =~= inline_accounts_set(ivs, lkv));
                filtered.deep_view().unique_seq_to_set();
                assert(filtered.deep_view().to_set().len() == inline_accounts_set(
                    ivs,
                    lkv,
                ).len());
                assert(filtered@.len() <= total_accounts@);
            }
            number_of_address_lookups = (total_accounts - filtered.len()) as u64;
            inline = filtered;
            proof {
                assert(number_of_address_lookups == spec_num_lookups(ivs, lkv));
            }
        },
    }
    proof {
        assert(inline.deep_view().to_set() =~= inline_accounts_set(ivs, lkv));
        inline.deep_view().unique_seq_to_set();
        assert(inline@.len() == inline_accounts_set(ivs, lkv).len());
        assert(number_of_address_lookups == spec_num_lookups(ivs, lkv));
    }

    // Counts that must fit the wire's 16-bit compact form.
    if signers.len() > 65535 {
        proof {
            assert(spec_tx_size(ivs, versioned_transaction, lkv) > 65535);
        }
        return Err(SolendError::ConversionWouldOverflow);
    }
    if inline.len() > 65535 {
        proof {
            assert(spec_tx_size(ivs, versioned_transaction, lkv) > 65535);
        }
        return Err(SolendError::ConversionWouldOverflow);
    }
    if number_of_address_lookups > 65535 {
        proof {
            assert(spec_tx_size(ivs, versioned_transaction, lkv) > 65535);
        }
        return Err(SolendError::ConversionWouldOverflow);
    }
    proof {
        lemma_sum_ix_sizes_nonneg(ivs);
        assert(3 * ivs.len() <= 65535);
    }

    let signers_len: u16 = signers.len() as u16;
    let accounts_len: u16 = inline.len() as u16;
    let instructions_len: u16 = instructions.len() as u16;

    let compressed_signers: u64 = get_size_of_compressed_u16(&signers_len) as u64;
    let compressed_accounts: u64 = get_size_of_compressed_u16(&accounts_len) as u64;
    let compressed_instructions: u64 = get_size_of_compressed_u16(&instructions_len) as u64;

    let total: u64 = compressed_signers + (signers_len as u64) * 64 + 3 + compressed_accounts + 32
        * (accounts_len as u64) + 32 + compressed_instructions + ix_total + (
    if versioned_transaction {
        2u64
    } else {
        0u64
    }) + (
    if versioned_transaction && number_of_address_lookups != 0 {
        32u64
    } else {
        0u64
    }) + (
    if versioned_transaction && number_of_address_lookups != 0 {
        2u64
    } else {
        0u64
    }) + number_of_address_lookups;

    proof {
        assert(total == spec_tx_size(ivs, versioned_transaction, lkv));
    }
    if total > 65535 {
        return Err(SolendError::ConversionWouldOverflow);
    }
    Ok(total as u16)
}

/// The size estimator under the shared error taxonomy: the exact byte
/// count of the transaction, or a size overflow when any intermediate
/// count exceeds the 16-bit range of the wire format.
pub fn estimate_size(
    instructions: Vec<Instruction>,
    versioned_transaction: bool,
    address_lookup_table_addresses: Option<Vec<Address>>,
) -> (r: Result<u16, crate::error::DecodeError>)
    ensures
        match spec_tx_size_result(
            instructions.deep_view(),
            versioned_transaction,
            address_lookup_table_addresses.deep_view(),
        ) {
            Ok(n) => r matches Ok(m) && m == n,
            Err(_) => r matches Err(e) && e == crate::error::DecodeError::SizeOverflow,
        },
{
    match get_size_of_transaction(
        instructions,
        versioned_transaction,
        address_lookup_table_addresses,
    ) {
        Ok(n) => Ok(n),
        Err(_) => Err(crate::error::DecodeError::SizeOverflow),
    }
}

/// With no instructions and no lookup table, the estimate is the fixed
/// header-only cost: one byte each for the empty signature, account and
/// instruction arrays, the 3-byte message header, and the 32-byte
/// blockhash — 38 bytes in all.
pub proof fn lemma_empty_transaction_size()
    ensures
        spec_tx_size_result(Seq::<InstructionV>::empty(), false, None) == Ok::<u16, SolendError>(
            38u16,
        ),
{
    let ivs = Seq::<InstructionV>::empty();
    assert forall|ix: InstructionV| !(#[trigger] ivs.contains(ix)) by {}
    assert(signers_set(ivs) =~= Set::<Seq<u8>>::empty());
    assert(accounts_set(ivs) =~= Set::<Seq<u8>>::empty());
    assert(spec_tx_size(ivs, false, None) == 38);
}

/// Reordering the instruction list never changes the estimator's outcome:
/// the collected sets and the summed instruction sizes depend only on which
/// instructions appear, not on their order.
pub proof fn lemma_size_order_independent(
    s1: Seq<InstructionV>,
    s2: Seq<InstructionV>,
    versioned: bool,
    lookup: Option<Seq<Seq<u8>>>,
)
    requires
        s1.to_multiset() == s2.to_multiset(),
    ensures
        spec_tx_size_result(s1, versioned, lookup) == spec_tx_size_result(s2, versioned, lookup),
{
    s1.to_multiset_ensures();
    s2.to_multiset_ensures();
    assert(s1.len() == s2.len());
    assert forall|ix: InstructionV| s1.contains(ix) implies s2.contains(ix) by {
        assert(s1.to_multiset().count(ix) > 0);
    }
    assert forall|ix: InstructionV| s2.contains(ix) implies s1.contains(ix) by {
        assert(s2.to_multiset().count(ix) > 0);
    }
    assert(programs_set(s1) =~= programs_set(s2));
    assert(accounts_set(s1) =~= accounts_set(s2));
    assert(signers_set(s1) =~= signers_set(s2));
    lemma_sum_ix_sizes_permutation(s1, s2);
    assert(spec_tx_size(s1, versioned, lookup) == spec_tx_size(s2, versioned, lookup));
    assert forall|i: int| 0 <= i < s1.len() && (s1[i].accounts.len() > 65535 || s1[i].data.len()
        > 65535) implies spec_ix_overflow(s2) by {
        assert(s1.contains(s1[i]));
        assert(s2.contains(s1[i]));
        let j = choose|j: int| 0 <= j < s2.len() && s2[j] == s1[i];
    }
    assert forall|i: int| 0 <= i < s2.len() && (s2[i].accounts.len() > 65535 || s2[i].data.len()
        > 65535) implies spec_ix_overflow(s1) by {
        assert(s2.contains(s2[i]));
        assert(s1.contains(s2[i]));
        let j = choose|j: int| 0 <= j < s1.len() && s1[j] == s2[i];
    }
    assert(spec_ix_overflow(s1) == spec_ix_overflow(s2));
}

} // verus!
