//! The rules engine: reading a position from its FEN text, playing moves
//! written in standard algebraic notation, and telling checkmate.
//!
//! A position is modelled by the line that reached it: the FEN text it was
//! read from and the moves played since, in order. The chess itself is done
//! by `shakmaty`, whose answers on a line are named by the spec functions
//! below.
use vstd::prelude::*;
use shakmaty::{fen::Fen, san::San, CastlingMode, Chess, Move, Position as _};

verus! {

#[verifier::external_type_specification]
#[verifier::external_body]
pub struct ExChess(Chess);

#[verifier::external_type_specification]
#[verifier::external_body]
pub struct ExFen(Fen);

#[verifier::external_type_specification]
#[verifier::external_body]
pub struct ExSan(San);

#[verifier::external_type_specification]
#[verifier::external_body]
pub struct ExMove(Move);

/// Whether `Fen::from_ascii` reads `text`.
pub uninterp spec fn fen_parses(text: Seq<char>) -> bool;

/// Whether `Fen::into_position` accepts the setup read from `text` as a
/// standard chess position.
pub uninterp spec fn setup_accepted(text: Seq<char>) -> bool;

/// Whether `San::from_ascii` reads `san`.
pub uninterp spec fn san_parses(san: Seq<char>) -> bool;

/// Whether `San::to_move` resolves `san` to a legal move in the position
/// reached from `start` by `played`.
pub uninterp spec fn san_resolves(start: Seq<char>, played: Seq<Seq<char>>, san: Seq<char>) -> bool;

/// Whether `Position::play` plays the move that `san` resolves to in the
/// position reached from `start` by `played`.
pub uninterp spec fn move_plays(start: Seq<char>, played: Seq<Seq<char>>, san: Seq<char>) -> bool;

/// Whether the position reached from `start` by `played` is checkmate.
pub uninterp spec fn mated(start: Seq<char>, played: Seq<Seq<char>>) -> bool;

/// Whether white is to move in the position reached from `start` by `played`.
pub uninterp spec fn white_turn(start: Seq<char>, played: Seq<Seq<char>>) -> bool;

/// `text` is FEN of a standard chess position.
pub open spec fn fen_accepted(text: Seq<char>) -> bool {
    fen_parses(text) && setup_accepted(text)
}

/// In the position reached from `start` by `played`, `san` is algebraic
/// notation that resolves to a legal move, and that move is played.
pub open spec fn san_playable(start: Seq<char>, played: Seq<Seq<char>>, san: Seq<char>) -> bool {
    san_parses(san) && san_resolves(start, played, san) && move_plays(start, played, san)
}

/// Every move of `moves` is playable in turn from `start`.
pub open spec fn line_playable(start: Seq<char>, moves: Seq<Seq<char>>) -> bool
    decreases moves.len(),
{
    if moves.len() == 0 {
        true
    } else {
        line_playable(start, moves.drop_last()) && san_playable(
            start,
            moves.drop_last(),
            moves.last(),
        )
    }
}

/// Why the rules engine refuses.
#[derive(Clone, Copy, Debug, PartialEq, Eq, Structural)]
pub enum RulesFault {
    MalformedPosition,
    IllegalMove,
}

/// A legal chess position, with the line that reached it.
pub struct Position {
    chess: Chess,
    start: Ghost<Seq<char>>,
    played: Ghost<Seq<Seq<char>>>,
}

impl Position {
    /// The FEN text the line started from.
    pub closed spec fn start(&self) -> Seq<char> {
        self.start@
    }

    /// The moves played since, in order.
    pub closed spec fn played(&self) -> Seq<Seq<char>> {
        self.played@
    }

    /// The line is one that the engine accepts: `chess` is the position it
    /// reaches.
    pub open spec fn wf(&self) -> bool {
        fen_accepted(self.start()) && line_playable(self.start(), self.played())
    }

    /// The position itself, for display.
    pub fn as_chess(&self) -> (r: &Chess) {
        &self.chess
    }
}

/// FEN as read, with the text it was read from.
struct FenText {
    fen: Fen,
    text: Ghost<Seq<char>>,
}

/// Algebraic notation as read, with its text.
struct SanText {
    san: San,
    text: Ghost<Seq<char>>,
}

/// The move that `text` resolved to in the position reached from `start` by
/// `played`.
struct ResolvedMove {
    mv: Move,
    start: Ghost<Seq<char>>,
    played: Ghost<Seq<Seq<char>>>,
    text: Ghost<Seq<char>>,
}

/// Relies on `Fen::from_ascii`: whether the text reads as FEN.
#[verifier::external_body]
fn read_fen(text: &str) -> (r: Option<FenText>)
    ensures
        r is Some <==> fen_parses(text@),
        r matches Some(f) ==> f.text@ == text@,
{
    match Fen::from_ascii(text.as_bytes()) {
        Ok(fen) => Some(FenText { fen, text: Ghost(text@) }),
        Err(_) => None,
    }
}

/// Relies on `Fen::into_position` with standard castling: whether the setup
/// is a legal chess position, which then starts a line of its own.
#[verifier::external_body]
fn fen_into_chess(f: FenText) -> (r: Option<Position>)
    ensures
        r is Some <==> setup_accepted(f.text@),
        r matches Some(p) ==> p.start() == f.text@ && p.played() == Seq::<Seq<char>>::empty(),
{
    match f.fen.into_position(CastlingMode::Standard) {
        Ok(chess) => Some(Position { chess, start: f.text, played: Ghost(Seq::empty()) }),
        Err(_) => None,
    }
}

/// Relies on `San::from_ascii`: whether the text reads as algebraic notation.
#[verifier::external_body]
fn read_san(san: &str) -> (r: Option<SanText>)
    ensures
        r is Some <==> san_parses(san@),
        r matches Some(n) ==> n.text@ == san@,
{
    match San::from_ascii(san.as_bytes()) {
        Ok(parsed) => Some(SanText { san: parsed, text: Ghost(san@) }),
        Err(_) => None,
    }
}

/// Relies on `San::to_move`: the legal move that the notation names. A piece
/// move needs exactly one matching candidate; castling takes the legal
/// castling move on that side.
#[verifier::external_body]
fn san_to_move(pos: &Position, n: &SanText) -> (r: Option<ResolvedMove>)
    ensures
        r is Some <==> san_resolves(pos.start(), pos.played(), n.text@),
        r matches Some(m) ==> m.start@ == pos.start() && m.played@ == pos.played() && m.text@
            == n.text@,
{
    match n.san.to_move(&pos.chess) {
        Ok(mv) => Some(ResolvedMove { mv, start: pos.start, played: pos.played, text: n.text }),
        Err(_) => None,
    }
}

/// Relies on `Position::play`: the move is played when it is legal, and
/// playing it passes the turn (`do_move` sets the turn to the other colour).
#[verifier::external_body]
fn play_move(pos: &Position, m: &ResolvedMove) -> (r: Option<Position>)
    requires
        m.start@ == pos.start(),
        m.played@ == pos.played(),
    ensures
        r is Some <==> move_plays(pos.start(), pos.played(), m.text@),
        r matches Some(q) ==> q.start() == pos.start() && q.played() == pos.played().push(m.text@),
        r matches Some(q) ==> white_turn(q.start(), q.played()) != white_turn(
            pos.start(),
            pos.played(),
        ),
{
    match pos.chess.clone().play(&m.mv) {
        Ok(chess) => Some(Position { chess, start: pos.start, played: Ghost(pos.played@.push(m.text@)) }),
        Err(_) => None,
    }
}

/// Relies on `Position::is_checkmate`: in check, with no legal move.
#[verifier::external_body]
fn chess_is_checkmate(pos: &Position) -> (r: bool)
    ensures
        r == mated(pos.start(), pos.played()),
{
    pos.chess.is_checkmate()
}

/// Relies on `Position::turn`: the colour to move.
#[verifier::external_body]
fn chess_white_to_move(pos: &Position) -> (r: bool)
    ensures
        r == white_turn(pos.start(), pos.played()),
{
    pos.chess.turn().is_white()
}

/// Reads a position from its FEN text.
pub fn parse_position(text: &str) -> (r: Result<Position, RulesFault>)
    ensures
        r is Ok <==> fen_accepted(text@),
        r is Err ==> r == Err::<Position, RulesFault>(RulesFault::MalformedPosition),
        r matches Ok(p) ==> p.wf() && p.start() == text@ && p.played() == Seq::<Seq<char>>::empty(),
{
    let fen = match read_fen(text) {
        Some(fen) => fen,
        None => {
            return Err(RulesFault::MalformedPosition);
        },
    };
    match fen_into_chess(fen) {
        Some(p) => Ok(p),
        None => Err(RulesFault::MalformedPosition),
    }
}

/// Plays one move given in algebraic notation.
pub fn resolve_and_apply(pos: &Position, san: &str) -> (r: Result<Position, RulesFault>)
    requires
        pos.wf(),
    ensures
        r is Ok <==> san_playable(pos.start(), pos.played(), san@),
        r is Err ==> r == Err::<Position, RulesFault>(RulesFault::IllegalMove),
        r matches Ok(q) ==> q.wf() && q.start() == pos.start() && q.played() == pos.played().push(san@),
        r matches Ok(q) ==> white_turn(q.start(), q.played()) != white_turn(pos.start(), pos.played()),
{
    let n = match read_san(san) {
        Some(n) => n,
        None => {
            return Err(RulesFault::IllegalMove);
        },
    };
    let m = match san_to_move(pos, &n) {
        Some(m) => m,
        None => {
            return Err(RulesFault::IllegalMove);
        },
    };
    match play_move(pos, &m) {
        Some(next) => {
            proof {
                assert(next.played().drop_last() =~= pos.played());
            }
            Ok(next)
        },
        None => Err(RulesFault::IllegalMove),
    }
}

/// Whether the side to move is checkmated: in check with no legal move.
/// Stalemate is not checkmate.
pub fn is_checkmate(pos: &Position) -> (r: bool)
    ensures
        r == mated(pos.start(), pos.played()),
{
    chess_is_checkmate(pos)
}

/// Whether white is to move.
pub fn white_to_move(pos: &Position) -> (r: bool)
    ensures
        r == white_turn(pos.start(), pos.played()),
{
    chess_white_to_move(pos)
}

} // verus!
