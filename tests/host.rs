use chess_mate::protocol::{request_proof, Inputs};

#[test]
fn main() {
    const TEST_BOARD: &str = "r1bqkbnr/pppp1ppp/2n5/4p2Q/2B1P3/8/PPPP1PPP/RNB1K1NR b KQkq - 4 4";
    const TEST_MOVES: [&str; 2] = ["Nf6", "Qxf7"];

    request_proof(&Inputs {
        board: String::from(TEST_BOARD),
        moves: TEST_MOVES.map(|m| m.to_string()).to_vec(),
    })
    .unwrap();
}
