//! The attestation protocol: the private computation that decides a witness
//! and commits the public output, and the host's side that checks what a
//! proof attests against the position that was claimed.
use vstd::prelude::*;
use crate::rules::{
    fen_accepted, is_checkmate, line_playable, mated, parse_position, resolve_and_apply,
    san_playable, white_to_move, white_turn, Position,
};

verus! {

/// The private input of a proof: a starting position and a line of moves.
pub struct Inputs {
    pub board: String,
    pub moves: Vec<String>,
}

/// What a proof makes public, in journal order: the starting position's
/// text, then the number of moves.
#[derive(Debug, PartialEq, Eq)]
pub struct PublicOutput {
    pub initial: String,
    pub count: u64,
}

/// Why the private computation aborts.
#[derive(Clone, Copy, Debug, PartialEq, Eq, Structural)]
pub enum ComputationFault {
    MalformedPosition,
    IllegalMove,
    NotCheckmate,
}

/// Why a proof request or its check fails.
#[derive(Clone, Copy, Debug, PartialEq, Eq, Structural)]
pub enum HostFault {
    ProvingFailed,
    InvalidReceipt,
    MalformedJournal,
    ClaimMismatch,
    MalformedPosition,
}

/// The moves of a witness, as text.
pub open spec fn moves_of(moves: Seq<String>) -> Seq<Seq<char>> {
    moves.map_values(|m: String| m@)
}

/// What the private computation yields on a starting text and a line:
/// the committed text and count, or the first reason to abort.
pub open spec fn computation_spec(board: Seq<char>, moves: Seq<Seq<char>>) -> Result<
    (Seq<char>, nat),
    ComputationFault,
> {
    if !fen_accepted(board) {
        Err(ComputationFault::MalformedPosition)
    } else if !line_playable(board, moves) {
        Err(ComputationFault::IllegalMove)
    } else if !mated(board, moves) {
        Err(ComputationFault::NotCheckmate)
    } else {
        Ok((board, moves.len()))
    }
}

/// A computation's result, as values.
pub open spec fn output_view(r: Result<PublicOutput, ComputationFault>) -> Result<
    (Seq<char>, nat),
    ComputationFault,
> {
    match r {
        Ok(o) => Ok((o.initial@, o.count as nat)),
        Err(e) => Err(e),
    }
}

/// Who is to move after `count` moves, when `white_first` tells who was to
/// move before them.
pub open spec fn turn_after(white_first: bool, count: nat) -> bool {
    if count % 2 == 0 {
        white_first
    } else {
        !white_first
    }
}

/// A playable line stays playable when cut short.
proof fn lemma_prefix_playable(start: Seq<char>, moves: Seq<Seq<char>>, k: nat)
    requires
        line_playable(start, moves),
        k <= moves.len(),
    ensures
        line_playable(start, moves.take(k as int)),
    decreases moves.len(),
{
    if k < moves.len() {
        lemma_prefix_playable(start, moves.drop_last(), k);
        assert(moves.drop_last().take(k as int) =~= moves.take(k as int));
    } else {
        assert(moves.take(k as int) =~= moves);
    }
}

/// Runs the private computation on a witness: reads the position, plays
/// every move in order and requires checkmate at the end. Only a line that
/// ends in checkmate yields output, and the output holds nothing of the
/// moves but their number.
pub fn private_computation(inputs: &Inputs) -> (r: Result<PublicOutput, ComputationFault>)
    ensures
        output_view(r) == computation_spec(inputs.board@, moves_of(inputs.moves@)),
        r matches Ok(o) ==> o.initial@ == inputs.board@ && o.count as int == inputs.moves.len(),
        r is Ok ==> white_turn(inputs.board@, moves_of(inputs.moves@)) == turn_after(
            white_turn(inputs.board@, Seq::empty()),
            inputs.moves.len() as nat,
        ),
{
    let ghost moves = moves_of(inputs.moves@);
    let initial = inputs.board.clone();
    let count = inputs.moves.len() as u64;
    let mut pos = match parse_position(inputs.board.as_str()) {
        Ok(p) => p,
        Err(_) => {
            return Err(ComputationFault::MalformedPosition);
        },
    };
    let mut i: usize = 0;
    assert(moves.take(0) =~= Seq::<Seq<char>>::empty());
    while i < inputs.moves.len()
        invariant
            i <= inputs.moves.len(),
            moves == moves_of(inputs.moves@),
            fen_accepted(inputs.board@),
            pos.wf(),
            pos.start() == inputs.board@,
            pos.played() == moves.take(i as int),
            white_turn(inputs.board@, moves.take(i as int)) == turn_after(
                white_turn(inputs.board@, Seq::empty()),
                i as nat,
            ),
        decreases inputs.moves.len() - i,
    {
        match resolve_and_apply(&pos, inputs.moves[i].as_str()) {
            Ok(next) => {
                pos = next;
            },
            Err(_) => {
                proof {
                    assert(moves.take(i + 1).drop_last() =~= moves.take(i as int));
                    if line_playable(inputs.board@, moves) {
                        lemma_prefix_playable(inputs.board@, moves, (i + 1) as nat);
                    }
                }
                return Err(ComputationFault::IllegalMove);
            },
        }
        proof {
            assert(moves.take(i as int).push(moves[i as int]) =~= moves.take(i + 1));
        }
        i += 1;
    }
    assert(moves.take(i as int) =~= moves);
    if !is_checkmate(&pos) {
        return Err(ComputationFault::NotCheckmate);
    }
    Ok(PublicOutput { initial, count })
}

/// A line of `count` moves from `initial` that the private computation
/// accepts, with the turn passing once per move.
pub open spec fn mating_line(initial: Seq<char>, count: nat, moves: Seq<Seq<char>>) -> bool {
    &&& moves.len() == count
    &&& computation_spec(initial, moves) == Ok::<(Seq<char>, nat), ComputationFault>((initial, count))
    &&& white_turn(initial, moves) == turn_after(white_turn(initial, Seq::empty()), count)
}

/// Proof that the private computation ran to completion on some witness,
/// carrying its journal and nothing else. Only [`request_proof`] makes one,
/// by running the computation in this process.
pub struct LocalReceipt {
    journal: PublicOutput,
}

impl LocalReceipt {
    /// The committed output.
    pub closed spec fn journal(&self) -> PublicOutput {
        self.journal
    }

    /// Some mating line stands behind the journal.
    pub open spec fn attests(&self) -> bool {
        exists|moves: Seq<Seq<char>>| mating_line(self.journal().initial@, self.journal().count as nat, moves)
    }

    /// The committed output.
    pub fn journal_output(&self) -> (r: &PublicOutput)
        ensures
            r == self.journal(),
    {
        &self.journal
    }
}

/// Requests a proof for a witness. The proof exists exactly when the
/// private computation runs to completion; otherwise proving fails and
/// nothing is produced.
pub fn request_proof(inputs: &Inputs) -> (r: Result<LocalReceipt, HostFault>)
    ensures
        r is Ok <==> computation_spec(inputs.board@, moves_of(inputs.moves@)) is Ok,
        r is Err ==> r == Err::<LocalReceipt, HostFault>(HostFault::ProvingFailed),
        r matches Ok(rc) ==> rc.journal().initial@ == inputs.board@ && rc.journal().count as int
            == inputs.moves.len() && rc.attests(),
        r is Ok ==> white_turn(inputs.board@, moves_of(inputs.moves@)) == turn_after(
            white_turn(inputs.board@, Seq::empty()),
            inputs.moves.len() as nat,
        ),
{
    match private_computation(inputs) {
        Ok(journal) => {
            let rc = LocalReceipt { journal };
            proof {
                assert(mating_line(
                    rc.journal().initial@,
                    rc.journal().count as nat,
                    moves_of(inputs.moves@),
                ));
            }
            Ok(rc)
        },
        Err(_) => Err(HostFault::ProvingFailed),
    }
}

/// What verifying a receipt against the program's identity gave: a
/// rejection, a journal that does not decode, or the decoded output.
pub enum Verification {
    Rejected,
    Undecodable,
    Decoded(PublicOutput),
}

/// What the host learns from a receipt that checks out.
pub struct VerifiedOutcome {
    pub count: u64,
    pub initial_white_to_move: bool,
    pub final_white_to_move: bool,
    pub position: Position,
}

/// What the host concludes from a journal that commits `initial` and
/// `count`, checked against the position it expected: the outcome on
/// success, or which check failed.
pub open spec fn journal_verdict(
    initial: Seq<char>,
    count: nat,
    expected: Seq<char>,
    r: Result<VerifiedOutcome, HostFault>,
) -> bool {
    if initial != expected {
        r == Err::<VerifiedOutcome, HostFault>(HostFault::ClaimMismatch)
    } else if !fen_accepted(initial) {
        r == Err::<VerifiedOutcome, HostFault>(HostFault::MalformedPosition)
    } else {
        &&& r matches Ok(out)
        &&& out.count as nat == count
        &&& out.position.wf()
        &&& out.position.start() == initial
        &&& out.position.played() == Seq::<Seq<char>>::empty()
        &&& out.initial_white_to_move == white_turn(initial, Seq::empty())
        &&& out.final_white_to_move == turn_after(out.initial_white_to_move, count)
    }
}

/// Checks what verifying a receipt gave against the position the prover
/// claimed to start from. The moves are not checked again: the receipt
/// stands for them.
pub fn check_verification(v: Verification, expected: &String) -> (r: Result<VerifiedOutcome, HostFault>)
    ensures
        v is Rejected ==> r == Err::<VerifiedOutcome, HostFault>(HostFault::InvalidReceipt),
        v is Undecodable ==> r == Err::<VerifiedOutcome, HostFault>(HostFault::MalformedJournal),
        v matches Verification::Decoded(o) ==> journal_verdict(o.initial@, o.count as nat, expected@, r),
{
    match v {
        Verification::Rejected => Err(HostFault::InvalidReceipt),
        Verification::Undecodable => Err(HostFault::MalformedJournal),
        Verification::Decoded(o) => {
            if !(o.initial == *expected) {
                return Err(HostFault::ClaimMismatch);
            }
            let position = match parse_position(o.initial.as_str()) {
                Ok(p) => p,
                Err(_) => {
                    return Err(HostFault::MalformedPosition);
                },
            };
            let initial_white_to_move = white_to_move(&position);
            let final_white_to_move = if o.count % 2 == 0 {
                initial_white_to_move
            } else {
                !initial_white_to_move
            };
            Ok(VerifiedOutcome { count: o.count, initial_white_to_move, final_white_to_move, position })
        },
    }
}

/// Checks a receipt against the position the prover claimed to start from.
pub fn check(receipt: &LocalReceipt, expected: &String) -> (r: Result<VerifiedOutcome, HostFault>)
    ensures
        journal_verdict(receipt.journal().initial@, receipt.journal().count as nat, expected@, r),
{
    let journal = PublicOutput {
        initial: receipt.journal.initial.clone(),
        count: receipt.journal.count,
    };
    check_verification(Verification::Decoded(journal), expected)
}

#[verifier::external_type_specification]
#[verifier::external_body]
pub struct ExReceipt(risc0_zkvm::Receipt);

/// The text and the move count that the zkVM's serde reads, in that order,
/// from journal bytes, if it reads them.
pub uninterp spec fn journal_decoded(bytes: Seq<u8>) -> Option<(Seq<char>, u64)>;

/// The bytes of the journal that `receipt` carries.
pub uninterp spec fn journal_of(receipt: risc0_zkvm::Receipt) -> Seq<u8>;

/// Relies on `risc0_zkvm::Receipt::verify`: whether the seal proves a run
/// of the program `image_id` that halted normally with this journal. Nothing
/// is promised of the answer: fake receipts pass only where the process runs
/// in development mode, which an environment variable decides.
#[verifier::external_body]
fn receipt_verifies(receipt: &risc0_zkvm::Receipt, image_id: [u32; 8]) -> (r: bool) {
    receipt.verify(image_id).is_ok()
}

/// Relies on `risc0_zkvm::Receipt`'s public `journal` field: its bytes.
#[verifier::external_body]
fn receipt_journal(receipt: &risc0_zkvm::Receipt) -> (r: Vec<u8>)
    ensures
        r@ == journal_of(*receipt),
{
    receipt.journal.bytes.clone()
}

/// Relies on `risc0_zkvm::serde::from_slice`, reading a `String` then a
/// `u64`. A length that is not a whole number of words makes it panic.
#[verifier::external_body]
fn decode_journal(bytes: &[u8]) -> (r: Option<(String, u64)>)
    requires
        bytes@.len() % 4 == 0,
    ensures
        r is Some <==> journal_decoded(bytes@) is Some,
        r matches Some(d) ==> journal_decoded(bytes@) == Some((d.0@, d.1)),
{
    risc0_zkvm::serde::from_slice::<(String, u64), u8>(bytes).ok()
}

/// Checks a journal against the position the prover claimed to start from,
/// given whether its receipt verified.
pub fn check_journal(verified: bool, bytes: &Vec<u8>, expected: &String) -> (r: Result<
    VerifiedOutcome,
    HostFault,
>)
    ensures
        !verified ==> r == Err::<VerifiedOutcome, HostFault>(HostFault::InvalidReceipt),
        verified && (bytes@.len() % 4 != 0 || journal_decoded(bytes@) is None) ==> r == Err::<
            VerifiedOutcome,
            HostFault,
        >(HostFault::MalformedJournal),
        verified && bytes@.len() % 4 == 0 ==> match journal_decoded(bytes@) {
            Some(d) => journal_verdict(d.0, d.1 as nat, expected@, r),
            None => true,
        },
{
    if !verified {
        return check_verification(Verification::Rejected, expected);
    }
    if bytes.len() % 4 != 0 {
        return check_verification(Verification::Undecodable, expected);
    }
    match decode_journal(bytes.as_slice()) {
        Some((initial, count)) => check_verification(
            Verification::Decoded(PublicOutput { initial, count }),
            expected,
        ),
        None => check_verification(Verification::Undecodable, expected),
    }
}

/// Checks a zkVM receipt of the program `image_id` against the position the
/// prover claimed to start from. Whatever the receipt holds, success means
/// that it committed exactly that position.
pub fn check_receipt(receipt: &risc0_zkvm::Receipt, image_id: [u32; 8], expected: &String) -> (r:
    Result<VerifiedOutcome, HostFault>)
    ensures
        r is Ok ==> (journal_of(*receipt).len() % 4 == 0 && match journal_decoded(
            journal_of(*receipt),
        ) {
            Some(d) => journal_verdict(d.0, d.1 as nat, expected@, r),
            None => false,
        }),
        (journal_of(*receipt).len() % 4 != 0 || journal_decoded(journal_of(*receipt)) is None) ==> (r
            == Err::<VerifiedOutcome, HostFault>(HostFault::InvalidReceipt) || r == Err::<
            VerifiedOutcome,
            HostFault,
        >(HostFault::MalformedJournal)),
        journal_of(*receipt).len() % 4 == 0 ==> match journal_decoded(journal_of(*receipt)) {
            Some(d) => r == Err::<VerifiedOutcome, HostFault>(HostFault::InvalidReceipt)
                || journal_verdict(d.0, d.1 as nat, expected@, r),
            None => true,
        },
        r matches Ok(out) ==> out.position.wf() && out.position.start() == expected@
            && out.position.played() == Seq::<Seq<char>>::empty(),
{
    let verified = receipt_verifies(receipt, image_id);
    let bytes = receipt_journal(receipt);
    check_journal(verified, &bytes, expected)
}

/// A witness that reads, plays legally and ends in checkmate is proved; its
/// journal commits its own starting text and its number of moves, and the
/// check of that journal against the same text reports that number and the
/// side to move after the line.
pub proof fn lemma_mating_line_is_proved(
    board: Seq<char>,
    moves: Seq<Seq<char>>,
    o: PublicOutput,
    r: Result<VerifiedOutcome, HostFault>,
)
    requires
        fen_accepted(board),
        line_playable(board, moves),
        mated(board, moves),
        o.initial@ == board,
        o.count == moves.len(),
        journal_verdict(o.initial@, o.count as nat, board, r),
    ensures
        computation_spec(board, moves) == Ok::<(Seq<char>, nat), ComputationFault>((board, moves.len())),
        r matches Ok(out) && out.count == moves.len() && out.final_white_to_move == turn_after(
            white_turn(board, Seq::empty()),
            moves.len(),
        ),
{
}

/// A line with a move that is illegal where it is played is never proved.
pub proof fn lemma_illegal_move_aborts(board: Seq<char>, moves: Seq<Seq<char>>, i: nat)
    requires
        i < moves.len(),
        !san_playable(board, moves.take(i as int), moves[i as int]),
    ensures
        computation_spec(board, moves) is Err,
        fen_accepted(board) ==> computation_spec(board, moves) == Err::<(Seq<char>, nat), ComputationFault>(
            ComputationFault::IllegalMove,
        ),
{
    if line_playable(board, moves) {
        lemma_prefix_playable(board, moves, i + 1);
        assert(moves.take(i + 1 as int).drop_last() =~= moves.take(i as int));
    }
}

/// A legal line that does not end in checkmate is never proved.
pub proof fn lemma_unmated_line_aborts(board: Seq<char>, moves: Seq<Seq<char>>)
    requires
        fen_accepted(board),
        line_playable(board, moves),
        !mated(board, moves),
    ensures
        computation_spec(board, moves) == Err::<(Seq<char>, nat), ComputationFault>(
            ComputationFault::NotCheckmate,
        ),
{
}

/// Two mating lines of one length from one position give the same journal:
/// the output tells nothing of which line was played.
pub proof fn lemma_journal_hides_moves(board: Seq<char>, m1: Seq<Seq<char>>, m2: Seq<Seq<char>>)
    requires
        m1.len() == m2.len(),
        computation_spec(board, m1) is Ok,
        computation_spec(board, m2) is Ok,
    ensures
        computation_spec(board, m1) == computation_spec(board, m2),
{
}

/// A receipt checked against any position other than the one it committed
/// to is refused as a mismatched claim.
pub proof fn lemma_other_claim_mismatches(
    initial: Seq<char>,
    count: nat,
    expected: Seq<char>,
    r: Result<VerifiedOutcome, HostFault>,
)
    requires
        initial != expected,
        journal_verdict(initial, count, expected, r),
    ensures
        r == Err::<VerifiedOutcome, HostFault>(HostFault::ClaimMismatch),
{
}

} // verus!
