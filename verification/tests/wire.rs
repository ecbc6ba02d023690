use retetomat::wire::{
    challenge_line, failure_line, frame_solution, misconfig_line, solution_line, success_line,
};

#[test]
fn challenge_line_matches_wire_format() {
    assert_eq!(
        challenge_line("0x8f2e"),
        "[SERVER] Challenge modules published at: 0x8f2e"
    );
}

#[test]
fn solution_line_matches_wire_format() {
    assert_eq!(solution_line("0x11"), "[SERVER] Solution published at 0x11");
}

#[test]
fn success_line_contains_the_secret() {
    assert_eq!(
        success_line("FLAG{abc}"),
        "[SERVER] Congrats, flag: FLAG{abc}"
    );
}

#[test]
fn misconfig_line_matches_wire_format() {
    assert_eq!(misconfig_line(), "[SERVER] Flag not found, please contact admin");
}

#[test]
fn failure_line_matches_wire_format() {
    assert_eq!(failure_line(), "[SERVER] Invalid Solution!");
}

#[test]
fn short_payload_is_handed_on_unchanged() {
    let framed = frame_solution(&vec![9u8, 8, 7], 2000);
    assert_eq!(framed, vec![9u8, 8, 7]);
}

#[test]
fn empty_payload_stays_empty() {
    let framed = frame_solution(&Vec::new(), 2000);
    assert!(framed.is_empty());
}

#[test]
fn exact_cap_payload_is_the_identity() {
    let payload: Vec<u8> = (0..2000u32).map(|i| (i * 7 % 256) as u8).collect();
    assert_eq!(frame_solution(&payload, 2000), payload);
}

#[test]
fn oversized_payload_is_cut_at_the_cap() {
    let payload: Vec<u8> = (0..2123u32).map(|i| (i % 200) as u8 + 1).collect();
    let framed = frame_solution(&payload, 2000);
    assert_eq!(framed.len(), 2000);
    assert_eq!(framed[..], payload[..2000]);
}
