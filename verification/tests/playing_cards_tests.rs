use memory_match::playing_cards::{back_texture_path, front_texture_path, PlayingCard, Rank, Suite};

// ─── From<i32> suite assignment ──────────────────────────────────────────

#[test]
fn from_i32_spades_range() {
    // 0..=12 → Spades
    assert!(matches!(PlayingCard::from(0), PlayingCard::Standard(Suite::Spades, Rank::Ace)));
    assert!(matches!(PlayingCard::from(12), PlayingCard::Standard(Suite::Spades, Rank::King)));
}

#[test]
fn from_i32_hearts_range() {
    // 13..=25 → Hearts
    assert!(matches!(PlayingCard::from(13), PlayingCard::Standard(Suite::Hearts, Rank::Ace)));
    assert!(matches!(PlayingCard::from(25), PlayingCard::Standard(Suite::Hearts, Rank::King)));
}

#[test]
fn from_i32_diamonds_range() {
    // 26..=38 → Diamonds
    assert!(matches!(PlayingCard::from(26), PlayingCard::Standard(Suite::Diamonds, Rank::Ace)));
    assert!(matches!(PlayingCard::from(38), PlayingCard::Standard(Suite::Diamonds, Rank::King)));
}

#[test]
fn from_i32_clubs_range() {
    // 39..=51 → Clubs
    assert!(matches!(PlayingCard::from(39), PlayingCard::Standard(Suite::Clubs, Rank::Ace)));
    assert!(matches!(PlayingCard::from(51), PlayingCard::Standard(Suite::Clubs, Rank::King)));
}

// ─── From<i32> rank order ────────────────────────────────────────────────

#[test]
fn from_i32_rank_order_in_spades() {
    // Spades (0..13): the offset maps directly onto the rank
    let expected = [
        Rank::Ace,
        Rank::Two,
        Rank::Three,
        Rank::Four,
        Rank::Five,
        Rank::Six,
        Rank::Seven,
        Rank::Eight,
        Rank::Nine,
        Rank::Ten,
        Rank::Jack,
        Rank::Queen,
        Rank::King,
    ];
    for (offset, expected_rank) in expected.iter().enumerate() {
        match PlayingCard::from(offset as i32) {
            PlayingCard::Standard(Suite::Spades, rank) => {
                assert_eq!(&rank, expected_rank, "index={offset}");
            }
            other => panic!("index={offset}: expected Spades but got {:?}", other),
        }
    }
}

// ─── all 52 indices decode to standard cards ─────────────────────────────

#[test]
fn from_i32_all_52_are_standard() {
    for i in 0..52_i32 {
        assert!(
            matches!(PlayingCard::from(i), PlayingCard::Standard(_, _)),
            "index={i} should be a standard card"
        );
    }
}

// ─── jokers ──────────────────────────────────────────────────────────────

#[test]
fn from_i32_joker() {
    assert!(matches!(PlayingCard::from(52), PlayingCard::Joker(0)));
    assert!(matches!(PlayingCard::from(53), PlayingCard::Joker(1)));
}

// ─── texture paths ───────────────────────────────────────────────────────

#[test]
fn texture_path_format() {
    let card = PlayingCard::Standard(Suite::Hearts, Rank::Ace);
    assert_eq!(front_texture_path(&card), "textures/playing_cards/card_heart_01.png");

    let card = PlayingCard::Standard(Suite::Spades, Rank::King);
    assert_eq!(front_texture_path(&card), "textures/playing_cards/card_spade_13.png");

    let card = PlayingCard::Standard(Suite::Diamonds, Rank::Ten);
    assert_eq!(front_texture_path(&card), "textures/playing_cards/card_diamond_10.png");

    let card = PlayingCard::Standard(Suite::Clubs, Rank::Jack);
    assert_eq!(front_texture_path(&card), "textures/playing_cards/card_club_11.png");
}

#[test]
fn back_texture_path_format() {
    assert_eq!(back_texture_path(), "textures/playing_cards/card_back.png");
}

// ─── numeric card tokens ─────────────────────────────────────────────────

#[test]
fn to_index_counts_ranks_from_one() {
    assert_eq!(PlayingCard::Standard(Suite::Spades, Rank::Ace).to_index(), 1);
    assert_eq!(PlayingCard::Standard(Suite::Hearts, Rank::King).to_index(), 26);
    assert_eq!(PlayingCard::Joker(0).to_index(), 52);
}

#[test]
fn display_names_rank_and_suit() {
    assert_eq!(PlayingCard::Standard(Suite::Hearts, Rank::Ace).display(), "Ace of Hearts");
    assert_eq!(PlayingCard::Standard(Suite::Spades, Rank::Queen).display(), "Queen of Spades");
    assert_eq!(PlayingCard::Joker(0).display(), "Joker 0");
    assert_eq!(PlayingCard::Joker(12).display(), "Joker 12");
    assert_eq!(PlayingCard::Joker(-3).display(), "Joker -3");
}

#[test]
fn joker_front_texture_path() {
    let card = PlayingCard::Joker(1);
    assert_eq!(front_texture_path(&card), "textures/playing_cards/card_joker.png");
}
