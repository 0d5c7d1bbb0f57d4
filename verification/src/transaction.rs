//! Transactions before they are signed, and how they are submitted.

use vstd::prelude::*;
use crate::address::{
    lemma_precedes_is_asymmetric, lemma_precedes_is_total, lemma_precedes_is_transitive, precedes,
    Address, Order,
};
use crate::config::JitoStakePoolCliConfig;
use crate::error::Error;
use crate::instruction::{instruction_views, Instruction, InstructionView};

verus! {

/// The addresses of a list of signers.
pub open spec fn address_views(addresses: Seq<Address>) -> Seq<Seq<u8>> {
    addresses.map_values(|a: Address| a@)
}

/// What an unsigned transaction holds.
pub struct TransactionView {
    pub fee_payer: Seq<u8>,
    pub instructions: Seq<InstructionView>,
    pub signers: Seq<Seq<u8>>,
}

/// A transaction that waits for a recent blockhash and for its signatures.
#[derive(Clone, Debug)]
pub struct Transaction {
    /// The account that pays the fee.
    pub fee_payer: Address,
    /// The instructions, in the order in which they run.
    pub instructions: Vec<Instruction>,
    /// The addresses whose keys sign, in the order the command names them.
    pub signers: Vec<Address>,
}

impl View for Transaction {
    type V = TransactionView;

    open spec fn view(&self) -> TransactionView {
        TransactionView {
            fee_payer: self.fee_payer@,
            instructions: instruction_views(self.instructions@),
            signers: address_views(self.signers@),
        }
    }
}

impl TransactionView {
    /// Whether account `j` of instruction `i` has to sign.
    pub open spec fn requires_signature(self, i: int, j: int) -> bool {
        &&& 0 <= i < self.instructions.len()
        &&& 0 <= j < self.instructions[i].accounts.len()
        &&& self.instructions[i].accounts[j].is_signer
    }

    /// Whether the transaction names a signer for every signature that its
    /// instructions require.
    pub open spec fn is_fully_signed(self) -> bool {
        forall|i: int, j: int| #[trigger]
            self.requires_signature(i, j) ==> self.signers.contains(
                self.instructions[i].accounts[j].pubkey,
            )
    }
}

/// How a transaction is to be submitted.
#[derive(Debug)]
pub enum Submission {
    /// Simulate the transaction and print the result.
    Simulate(Transaction),
    /// Send the transaction, wait until it is confirmed and print its
    /// signature.
    SendAndConfirm(Transaction),
    /// Send the transaction and print its signature without waiting for
    /// its confirmation.
    Send(Transaction),
}

impl Submission {
    /// The transaction to submit.
    pub open spec fn transaction(self) -> TransactionView {
        match self {
            Submission::Simulate(t) => t@,
            Submission::SendAndConfirm(t) => t@,
            Submission::Send(t) => t@,
        }
    }
}

/// Assembles the transaction of a command: the fee payer of the
/// configuration pays for it.
pub fn checked_transaction_with_signers(
    config: &JitoStakePoolCliConfig,
    instructions: Vec<Instruction>,
    signers: Vec<Address>,
) -> (r: Transaction)
    ensures
        r@.fee_payer == config.fee_payer@,
        r@.instructions == instruction_views(instructions@),
        r@.signers == address_views(signers@),
{
    Transaction { fee_payer: config.fee_payer, instructions, signers }
}

/// Decides how `transaction` is submitted: simulated in a dry run, sent and
/// confirmed otherwise.
pub fn send_transaction(config: &JitoStakePoolCliConfig, transaction: Transaction) -> (r:
    Submission)
    ensures
        r.transaction() == transaction@,
        config.dry_run ==> r is Simulate,
        !config.dry_run ==> r is SendAndConfirm,
{
    if config.dry_run {
        Submission::Simulate(transaction)
    } else {
        Submission::SendAndConfirm(transaction)
    }
}

/// Decides how `transaction` is submitted by a caller that does not wait:
/// simulated in a dry run, sent otherwise.
pub fn send_transaction_no_wait(
    config: &JitoStakePoolCliConfig,
    transaction: Transaction,
) -> (r: Submission)
    ensures
        r.transaction() == transaction@,
        config.dry_run ==> r is Simulate,
        !config.dry_run ==> r is Send,
{
    if config.dry_run {
        Submission::Simulate(transaction)
    } else {
        Submission::Send(transaction)
    }
}

/// Checks that the fee payer can pay `required_balance` lamports out of
/// `balance`.
pub fn check_fee_payer_balance(
    config: &JitoStakePoolCliConfig,
    balance: u64,
    required_balance: u64,
) -> (r: Result<(), Error>)
    ensures
        balance >= required_balance ==> r is Ok,
        balance < required_balance ==> r == Err::<(), Error>(
            Error::InsufficientFeePayerBalance {
                fee_payer: config.fee_payer,
                required: required_balance,
                balance,
            },
        ),
{
    if balance < required_balance {
        Err(
            Error::InsufficientFeePayerBalance {
                fee_payer: config.fee_payer,
                required: required_balance,
                balance,
            },
        )
    } else {
        Ok(())
    }
}

/// Whether each address of `addresses` comes before those after it, so that
/// none occurs twice.
pub open spec fn strictly_ascending(addresses: Seq<Seq<u8>>) -> bool {
    forall|i: int, j: int|
        0 <= i < j < addresses.len() ==> precedes(#[trigger] addresses[i], #[trigger] addresses[j])
}

/// Whether `unique` holds the addresses of `signers`, each once, in the
/// order of their bytes.
pub open spec fn is_unique_signers_of(unique: Seq<Seq<u8>>, signers: Seq<Seq<u8>>) -> bool {
    &&& strictly_ascending(unique)
    &&& forall|a: Seq<u8>| unique.contains(a) <==> signers.contains(a)
}

/// The signers, each once, in the order of their bytes.
pub open spec fn unique_signers_of(signers: Seq<Seq<u8>>) -> Seq<Seq<u8>> {
    choose|unique: Seq<Seq<u8>>| is_unique_signers_of(unique, signers)
}

/// Orders the signers by address and drops those that occur again.
pub fn unique_signers(signers: &Vec<Address>) -> (r: Vec<Address>)
    ensures
        is_unique_signers_of(address_views(r@), address_views(signers@)),
        address_views(r@) == unique_signers_of(address_views(signers@)),
{
    let mut out: Vec<Address> = Vec::new();
    let ghost all = address_views(signers@);
    let mut i: usize = 0;
    while i < signers.len()
        invariant
            i <= signers.len(),
            all == address_views(signers@),
            strictly_ascending(address_views(out@)),
            forall|a: Seq<u8>|
                address_views(out@).contains(a) <==> all.take(i as int).contains(a),
        decreases signers.len() - i,
    {
        let signer = signers[i];
        let ghost before = address_views(out@);
        let mut p: usize = 0;
        let mut present = false;
        while p < out.len()
            invariant_except_break
                !present,
            invariant
                p <= out.len(),
                before == address_views(out@),
                forall|j: int| 0 <= j < p ==> precedes(#[trigger] before[j], signer@),
            ensures
                p <= out.len(),
                before == address_views(out@),
                forall|j: int| 0 <= j < p ==> precedes(#[trigger] before[j], signer@),
                present ==> p < out.len() && before[p as int] == signer@,
                !present && p < out.len() ==> precedes(signer@, before[p as int]),
            decreases out.len() - p,
        {
            match out[p].compare(&signer) {
                Order::Before => {
                    assert(before[p as int] == out@[p as int]@);
                    p = p + 1;
                },
                Order::Same => {
                    assert(before[p as int] == out@[p as int]@);
                    present = true;
                    break ;
                },
                Order::After => {
                    assert(before[p as int] == out@[p as int]@);
                    break ;
                },
            }
        }
        if !present {
            out.insert(p, signer);
        }
        proof {
            let after = address_views(out@);
            let grown = all.take(i as int + 1);
            assert(grown =~= all.take(i as int).push(signer@));
            if present {
                assert(after == before);
                assert(before.contains(signer@));
                assert forall|a: Seq<u8>| after.contains(a) <==> grown.contains(a) by {
                    if grown.contains(a) {
                        let k = choose|k: int| 0 <= k < grown.len() && grown[k] == a;
                        if k < i {
                            assert(all.take(i as int)[k] == a);
                        }
                    }
                    if after.contains(a) {
                        let k = choose|k: int|
                            0 <= k < all.take(i as int).len() && all.take(i as int)[k] == a;
                        assert(grown[k] == a);
                    }
                }
            } else {
                assert(after =~= before.insert(p as int, signer@));
                assert forall|x: int, y: int| 0 <= x < y < after.len() implies precedes(
                    #[trigger] after[x],
                    #[trigger] after[y],
                ) by {
                    if y < p {
                        assert(after[x] == before[x] && after[y] == before[y]);
                    } else if y == p {
                        assert(after[x] == before[x]);
                    } else if x < p {
                        assert(after[x] == before[x] && after[y] == before[y - 1]);
                    } else if x == p {
                        assert(after[y] == before[y - 1]);
                        if y - 1 > p {
                            lemma_precedes_is_transitive(
                                signer@,
                                before[p as int],
                                before[y - 1],
                            );
                        }
                    } else {
                        assert(after[x] == before[x - 1] && after[y] == before[y - 1]);
                    }
                }
                assert forall|a: Seq<u8>| after.contains(a) <==> grown.contains(a) by {
                    if after.contains(a) {
                        let k = choose|k: int| 0 <= k < after.len() && after[k] == a;
                        if k == p {
                            assert(grown[i as int] == a);
                        } else {
                            if k < p {
                                assert(before[k] == a);
                            } else {
                                assert(before[k - 1] == a);
                            }
                            assert(before.contains(a));
                            let m = choose|m: int|
                                0 <= m < all.take(i as int).len() && all.take(i as int)[m] == a;
                            assert(grown[m] == a);
                        }
                    }
                    if grown.contains(a) {
                        let k = choose|k: int| 0 <= k < grown.len() && grown[k] == a;
                        if k < i {
                            assert(all.take(i as int)[k] == a);
                            assert(before.contains(a));
                            let m = choose|m: int| 0 <= m < before.len() && before[m] == a;
                            if m < p {
                                assert(after[m] == a);
                            } else {
                                assert(after[m + 1] == a);
                            }
                        } else {
                            assert(after[p as int] == a);
                        }
                    }
                }
            }
        }
        i = i + 1;
    }
    proof {
        assert(all.take(signers.len() as int) =~= all);
        assert(is_unique_signers_of(address_views(out@), all));
        assert(is_unique_signers_of(unique_signers_of(all), all));
        lemma_unique_signers_are_determined(address_views(out@), unique_signers_of(all), all);
    }
    out
}

/// There is one way to order a set of signers: two lists that hold the same
/// addresses, each strictly ascending, are the same list.
pub proof fn lemma_unique_signers_are_determined(
    first: Seq<Seq<u8>>,
    second: Seq<Seq<u8>>,
    signers: Seq<Seq<u8>>,
)
    requires
        is_unique_signers_of(first, signers),
        is_unique_signers_of(second, signers),
    ensures
        first == second,
    decreases first.len(),
{
    if first.len() == 0 {
        if second.len() > 0 {
            assert(second.contains(second[0]));
            assert(first.contains(second[0]));
        }
        assert(first =~= second);
    } else {
        assert(first.contains(first[0]));
        assert(second.contains(first[0]));
        assert(second.contains(second[0]));
        assert(first.contains(second[0]));
        let in_second = choose|k: int| 0 <= k < second.len() && second[k] == first[0];
        let in_first = choose|k: int| 0 <= k < first.len() && first[k] == second[0];
        if in_second > 0 && in_first > 0 {
            assert(precedes(second[0], second[in_second]));
            assert(precedes(first[0], first[in_first]));
            lemma_precedes_is_asymmetric(second[0], first[0]);
        }
        if in_second > 0 && in_first == 0 {
            assert(precedes(second[0], second[in_second]));
            lemma_precedes_is_asymmetric(second[0], first[0]);
        }
        if in_second == 0 && in_first > 0 {
            assert(precedes(first[0], first[in_first]));
            lemma_precedes_is_asymmetric(first[0], second[0]);
        }
        assert(first[0] == second[0]);
        let rest_first = first.drop_first();
        let rest_second = second.drop_first();
        assert forall|i: int, j: int| 0 <= i < j < rest_first.len() implies precedes(
            #[trigger] rest_first[i],
            #[trigger] rest_first[j],
        ) by {
            assert(rest_first[i] == first[i + 1] && rest_first[j] == first[j + 1]);
        }
        assert forall|i: int, j: int| 0 <= i < j < rest_second.len() implies precedes(
            #[trigger] rest_second[i],
            #[trigger] rest_second[j],
        ) by {
            assert(rest_second[i] == second[i + 1] && rest_second[j] == second[j + 1]);
        }
        assert forall|a: Seq<u8>| rest_first.contains(a) <==> rest_second.contains(a) by {
            if rest_first.contains(a) {
                let k = choose|k: int| 0 <= k < rest_first.len() && rest_first[k] == a;
                assert(first[k + 1] == a);
                assert(precedes(first[0], first[k + 1]));
                lemma_precedes_is_asymmetric(first[0], a);
                assert(first.contains(a));
                assert(second.contains(a));
                let m = choose|m: int| 0 <= m < second.len() && second[m] == a;
                assert(m > 0);
                assert(rest_second[m - 1] == a);
            }
            if rest_second.contains(a) {
                let k = choose|k: int| 0 <= k < rest_second.len() && rest_second[k] == a;
                assert(second[k + 1] == a);
                assert(precedes(second[0], second[k + 1]));
                lemma_precedes_is_asymmetric(second[0], a);
                assert(second.contains(a));
                assert(first.contains(a));
                let m = choose|m: int| 0 <= m < first.len() && first[m] == a;
                assert(m > 0);
                assert(rest_first[m - 1] == a);
            }
        }
        lemma_unique_signers_are_determined(rest_first, rest_second, rest_first);
        assert(first =~= seq![first[0]] + rest_first);
        assert(second =~= seq![second[0]] + rest_second);
    }
}

/// Whether every one of `signers` is as long as an address.
pub open spec fn all_addresses(signers: Seq<Seq<u8>>) -> bool {
    forall|i: int| 0 <= i < signers.len() ==> (#[trigger] signers[i]).len() == 32
}

/// Every list of addresses can be ordered: `unique_signers_of` holds the
/// addresses of the list, each once, in the order of their bytes.
pub proof fn lemma_unique_signers_exist(signers: Seq<Seq<u8>>)
    requires
        all_addresses(signers),
    ensures
        is_unique_signers_of(unique_signers_of(signers), signers),
    decreases signers.len(),
{
    if signers.len() == 0 {
        let empty = Seq::<Seq<u8>>::empty();
        assert(is_unique_signers_of(empty, signers));
    } else {
        let rest = signers.drop_last();
        let last = signers.last();
        assert forall|i: int| 0 <= i < rest.len() implies (#[trigger] rest[i]).len() == 32 by {
            assert(rest[i] == signers[i]);
        }
        lemma_unique_signers_exist(rest);
        let ordered = unique_signers_of(rest);
        assert(signers =~= rest.push(last));
        assert forall|i: int| 0 <= i < ordered.len() implies (#[trigger] ordered[i]).len()
            == 32 by {
            assert(ordered.contains(ordered[i]));
            assert(rest.contains(ordered[i]));
            let k = choose|k: int| 0 <= k < rest.len() && rest[k] == ordered[i];
            assert(rest[k].len() == 32);
        }
        if ordered.contains(last) {
            assert forall|a: Seq<u8>| ordered.contains(a) <==> signers.contains(a) by {
                if signers.contains(a) {
                    let k = choose|k: int| 0 <= k < signers.len() && signers[k] == a;
                    if k < rest.len() {
                        assert(rest[k] == a);
                    }
                }
                if ordered.contains(a) {
                    assert(rest.contains(a));
                    let k = choose|k: int| 0 <= k < rest.len() && rest[k] == a;
                    assert(signers[k] == a);
                }
            }
            assert(is_unique_signers_of(ordered, signers));
        } else {
            let p = lemma_place_of(ordered, last, ordered.len() as int);
            let grown = ordered.insert(p, last);
            assert forall|x: int, y: int| 0 <= x < y < grown.len() implies precedes(
                #[trigger] grown[x],
                #[trigger] grown[y],
            ) by {
                if y < p {
                    assert(grown[x] == ordered[x] && grown[y] == ordered[y]);
                } else if y == p {
                    assert(grown[x] == ordered[x]);
                } else if x < p {
                    assert(grown[x] == ordered[x] && grown[y] == ordered[y - 1]);
                } else if x == p {
                    assert(grown[y] == ordered[y - 1]);
                } else {
                    assert(grown[x] == ordered[x - 1] && grown[y] == ordered[y - 1]);
                }
            }
            assert forall|a: Seq<u8>| grown.contains(a) <==> signers.contains(a) by {
                if grown.contains(a) {
                    let k = choose|k: int| 0 <= k < grown.len() && grown[k] == a;
                    if k == p {
                        assert(signers[signers.len() - 1] == a);
                    } else {
                        if k < p {
                            assert(ordered[k] == a);
                        } else {
                            assert(ordered[k - 1] == a);
                        }
                        assert(ordered.contains(a));
                        assert(rest.contains(a));
                        let m = choose|m: int| 0 <= m < rest.len() && rest[m] == a;
                        assert(signers[m] == a);
                    }
                }
                if signers.contains(a) {
                    let k = choose|k: int| 0 <= k < signers.len() && signers[k] == a;
                    if k < rest.len() {
                        assert(rest[k] == a);
                        assert(rest.contains(a));
                        assert(ordered.contains(a));
                        let m = choose|m: int| 0 <= m < ordered.len() && ordered[m] == a;
                        if m < p {
                            assert(grown[m] == a);
                        } else {
                            assert(grown[m + 1] == a);
                        }
                    } else {
                        assert(grown[p] == a);
                    }
                }
            }
            assert(is_unique_signers_of(grown, signers));
        }
    }
}

/// The place of `x` in a strictly ascending list that does not hold it:
/// what stands before the place comes before `x`, and `x` comes before
/// what stands from the place on.
proof fn lemma_place_of(ordered: Seq<Seq<u8>>, x: Seq<u8>, bound: int) -> (p: int)
    requires
        strictly_ascending(ordered),
        all_addresses(ordered),
        x.len() == 32,
        !ordered.contains(x),
        0 <= bound <= ordered.len(),
        forall|j: int| bound <= j < ordered.len() ==> precedes(x, #[trigger] ordered[j]),
    ensures
        0 <= p <= bound,
        forall|j: int| 0 <= j < p ==> precedes(#[trigger] ordered[j], x),
        forall|j: int| p <= j < ordered.len() ==> precedes(x, #[trigger] ordered[j]),
    decreases bound,
{
    if bound == 0 {
        0
    } else {
        let before = ordered[bound - 1];
        assert(ordered.contains(before));
        lemma_precedes_is_total(before, x);
        if precedes(before, x) {
            assert forall|j: int| 0 <= j < bound implies precedes(#[trigger] ordered[j], x) by {
                if j < bound - 1 {
                    lemma_precedes_is_transitive(ordered[j], before, x);
                }
            }
            bound
        } else {
            lemma_place_of(ordered, x, bound - 1)
        }
    }
}

/// The signers of a list, ordered, are those of the list.
pub proof fn lemma_unique_signers_are_the_signers(signers: Seq<Seq<u8>>, who: Seq<u8>)
    requires
        all_addresses(signers),
    ensures
        unique_signers_of(signers).contains(who) <==> signers.contains(who),
{
    lemma_unique_signers_exist(signers);
}

} // verus!
