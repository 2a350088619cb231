use aim_trainer::stats::{mean_delay_us, median_delay_us, rating_for_delay};

#[test]
fn mean_of_three_delays() {
    let delays: Vec<i64> = vec![100000, 150000, 200000];
    assert_eq!(mean_delay_us(&delays), 150000);
}

#[test]
fn median_of_three_delays() {
    let delays: Vec<i64> = vec![100000, 150000, 200000];
    assert_eq!(median_delay_us(&delays), 150000);
}

#[test]
fn median_of_two_delays_averages_the_middle() {
    let delays: Vec<i64> = vec![100000, 150000];
    assert_eq!(median_delay_us(&delays), 125000);
}

#[test]
fn median_sorts_its_input() {
    let delays: Vec<i64> = vec![200000, 100000, 150000];
    assert_eq!(median_delay_us(&delays), 150000);
    let delays2: Vec<i64> = vec![500000, 70000];
    assert_eq!(median_delay_us(&delays2), 285000);
}

#[test]
fn rating_boundary_supreme_grandmaster() {
    assert_eq!(rating_for_delay(124900), "Supreme");
    assert_eq!(rating_for_delay(125000), "Grandmaster");
}

#[test]
fn rating_all_bands() {
    assert_eq!(rating_for_delay(0), "Supreme");
    assert_eq!(rating_for_delay(134999), "Grandmaster");
    assert_eq!(rating_for_delay(135000), "Master");
    assert_eq!(rating_for_delay(149999), "Master");
    assert_eq!(rating_for_delay(150000), "Diamond");
    assert_eq!(rating_for_delay(164999), "Diamond");
    assert_eq!(rating_for_delay(165000), "Platinum");
    assert_eq!(rating_for_delay(179999), "Platinum");
    assert_eq!(rating_for_delay(180000), "Gold");
    assert_eq!(rating_for_delay(199999), "Gold");
    assert_eq!(rating_for_delay(200000), "Silver");
    assert_eq!(rating_for_delay(219999), "Silver");
    assert_eq!(rating_for_delay(220000), "Bronze");
    assert_eq!(rating_for_delay(249999), "Bronze");
    assert_eq!(rating_for_delay(250000), "Keep practicing");
    assert_eq!(rating_for_delay(1000000), "Keep practicing");
}
