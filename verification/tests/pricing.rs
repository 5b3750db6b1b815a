use bill_calculator::{amount_for, volume_credits_for, Performance, Play, PlayGenre};

fn tragedy() -> Play {
    Play::new(String::from("Hamlet"), PlayGenre::Tragedy)
}

fn comedy() -> Play {
    Play::new(String::from("As You Like It"), PlayGenre::Comedy)
}

fn seats(audience: u32) -> Performance {
    Performance::new(String::from("any"), audience)
}

#[test]
fn tragedy_up_to_thirty_seats_costs_the_base_charge() {
    for audience in [0u32, 1, 15, 29, 30] {
        assert_eq!(amount_for(&seats(audience), &tragedy()), 40000);
    }
}

#[test]
fn tragedy_beyond_thirty_seats_adds_a_thousand_per_seat() {
    assert_eq!(amount_for(&seats(31), &tragedy()), 41000);
    assert_eq!(amount_for(&seats(40), &tragedy()), 50000);
    assert_eq!(amount_for(&seats(55), &tragedy()), 65000);
    for audience in [31u32, 32, 100, 1000, 65536] {
        assert_eq!(
            amount_for(&seats(audience), &tragedy()),
            40000 + 1000 * (u64::from(audience) - 30)
        );
    }
}

#[test]
fn comedy_up_to_twenty_seats_adds_three_hundred_per_seat() {
    assert_eq!(amount_for(&seats(0), &comedy()), 30000);
    assert_eq!(amount_for(&seats(1), &comedy()), 30300);
    assert_eq!(amount_for(&seats(20), &comedy()), 36000);
    for audience in [0u32, 5, 10, 19, 20] {
        assert_eq!(amount_for(&seats(audience), &comedy()), 30000 + 300 * u64::from(audience));
    }
}

#[test]
fn comedy_beyond_twenty_seats_adds_the_surcharge() {
    assert_eq!(amount_for(&seats(21), &comedy()), 46800);
    assert_eq!(amount_for(&seats(35), &comedy()), 58000);
    for audience in [21u32, 22, 30, 31, 500, 70000] {
        let a = u64::from(audience);
        assert_eq!(
            amount_for(&seats(audience), &comedy()),
            30000 + 10000 + 500 * (a - 20) + 300 * a
        );
    }
}

#[test]
fn the_largest_audience_is_priced_without_wrapping() {
    assert_eq!(amount_for(&seats(u32::MAX), &tragedy()), 4_294_967_305_000);
    assert_eq!(amount_for(&seats(u32::MAX), &comedy()), 3_435_973_866_000);
}

#[test]
fn every_charge_is_a_whole_number_of_units() {
    for audience in [0u32, 7, 20, 21, 30, 31, 99, 12345, u32::MAX] {
        assert_eq!(amount_for(&seats(audience), &tragedy()) % 100, 0);
        assert_eq!(amount_for(&seats(audience), &comedy()) % 100, 0);
    }
}

#[test]
fn small_audiences_earn_no_base_credit() {
    for audience in [0u32, 1, 4, 29, 30] {
        assert_eq!(volume_credits_for(&seats(audience), &tragedy()), 0);
    }
    assert_eq!(volume_credits_for(&seats(0), &comedy()), 0);
    assert_eq!(volume_credits_for(&seats(4), &comedy()), 0);
}

#[test]
fn seats_beyond_thirty_earn_one_credit_each() {
    assert_eq!(volume_credits_for(&seats(31), &tragedy()), 1);
    assert_eq!(volume_credits_for(&seats(40), &tragedy()), 10);
    assert_eq!(volume_credits_for(&seats(55), &tragedy()), 25);
    assert_eq!(volume_credits_for(&seats(u32::MAX), &tragedy()), 4_294_967_265);
}

#[test]
fn comedy_earns_a_credit_for_every_five_seats() {
    assert_eq!(volume_credits_for(&seats(5), &comedy()), 1);
    assert_eq!(volume_credits_for(&seats(9), &comedy()), 1);
    assert_eq!(volume_credits_for(&seats(29), &comedy()), 5);
    assert_eq!(volume_credits_for(&seats(35), &comedy()), 12);
    assert_eq!(volume_credits_for(&seats(u32::MAX), &comedy()), 4_294_967_265 + 858_993_459);
    for audience in [0u32, 3, 5, 30, 31, 44, 1000] {
        assert_eq!(
            volume_credits_for(&seats(audience), &comedy()),
            volume_credits_for(&seats(audience), &tragedy()) + u64::from(audience / 5)
        );
    }
}

#[test]
fn genre_and_name_are_kept_as_given() {
    let play = comedy();
    assert_eq!(play.name(), "As You Like It");
    assert_eq!(play.genre(), PlayGenre::Comedy);
    assert_eq!(tragedy().genre(), PlayGenre::Tragedy);
    let performance = Performance::new(String::from("as-like"), 35);
    assert_eq!(performance.play_id(), "as-like");
    assert_eq!(performance.audience(), 35);
}
