use crypton_donation_charity::pubkey::Pubkey;
use crypton_donation_charity::top::track_top_donation;

fn key(b: u8) -> Pubkey {
    Pubkey([b; 32])
}

#[test]
fn board_fills_until_capacity() {
    let mut vals: Vec<u64> = Vec::new();
    let mut adrs: Vec<Pubkey> = Vec::new();
    for i in 0..3u8 {
        track_top_donation(&mut vals, &mut adrs, 3, 10 + i as u64, key(i));
    }
    assert_eq!(vals, vec![10, 11, 12]);
    assert_eq!(adrs, vec![key(0), key(1), key(2)]);
}

#[test]
fn full_board_replaces_first_least_value() {
    let mut vals: Vec<u64> = vec![5, 3, 7, 3];
    let mut adrs: Vec<Pubkey> = vec![key(1), key(2), key(3), key(4)];
    track_top_donation(&mut vals, &mut adrs, 4, 6, key(9));
    // the first 3 (position 1) leaves, the donation goes to the end
    assert_eq!(vals, vec![5, 7, 3, 6]);
    assert_eq!(adrs, vec![key(1), key(3), key(4), key(9)]);
}

#[test]
fn full_board_ignores_donation_not_above_least_value() {
    let mut vals: Vec<u64> = vec![5, 3, 7];
    let mut adrs: Vec<Pubkey> = vec![key(1), key(2), key(3)];
    track_top_donation(&mut vals, &mut adrs, 3, 3, key(9));
    assert_eq!(vals, vec![5, 3, 7]);
    assert_eq!(adrs, vec![key(1), key(2), key(3)]);
    track_top_donation(&mut vals, &mut adrs, 3, 1, key(9));
    assert_eq!(vals, vec![5, 3, 7]);
}

#[test]
fn board_holds_largest_donations_of_history() {
    // law: after any sequence of donations the board holds the largest ones
    let history: Vec<u64> = vec![4, 9, 1, 9, 12, 3, 8, 15, 2, 9, 7, 20, 6];
    let cap = 5usize;
    let mut vals: Vec<u64> = Vec::new();
    let mut adrs: Vec<Pubkey> = Vec::new();
    for (i, a) in history.iter().enumerate() {
        track_top_donation(&mut vals, &mut adrs, cap, *a, key(i as u8));
        let mut seen: Vec<u64> = history[..=i].to_vec();
        seen.sort_unstable_by(|x, y| y.cmp(x));
        seen.truncate(cap);
        let mut on_board = vals.clone();
        on_board.sort_unstable_by(|x, y| y.cmp(x));
        assert_eq!(on_board, seen);
        // law: every entry pairs a donator with the amount it donated
        for (k, v) in vals.iter().enumerate() {
            let who = adrs[k].0[0] as usize;
            assert_eq!(history[who], *v);
        }
    }
}

#[test]
fn pubkey_round_trip() {
    let bytes = [7u8; 32];
    let k = Pubkey::new_from_array(bytes);
    assert_eq!(k.to_bytes(), bytes);
    assert_eq!(k, Pubkey([7u8; 32]));
}
