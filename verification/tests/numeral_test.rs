use bahttext::money_to_thai_words;
use bahttext::numeral::push_digit;

#[test]
fn zero_has_a_word_of_its_own() {
    assert_eq!(money_to_thai_words(0), "ศูนย์");
}

#[test]
fn single_digits() {
    let words = ["หนึ่ง", "สอง", "สาม", "สี่", "ห้า", "หก", "เจ็ด", "แปด", "เก้า"];
    for (i, word) in words.iter().enumerate() {
        assert_eq!(money_to_thai_words(i as u64 + 1), *word);
    }
}

#[test]
fn irregular_digits() {
    assert_eq!(money_to_thai_words(1), "หนึ่ง");
    assert_eq!(money_to_thai_words(10), "สิบ");
    assert_eq!(money_to_thai_words(11), "สิบเอ็ด");
    assert_eq!(money_to_thai_words(20), "ยี่สิบ");
    assert_eq!(money_to_thai_words(21), "ยี่สิบเอ็ด");
    assert_eq!(money_to_thai_words(12), "สิบสอง");
    assert_eq!(money_to_thai_words(101), "หนึ่งร้อยเอ็ด");
    assert_eq!(money_to_thai_words(111), "หนึ่งร้อยสิบเอ็ด");
    assert_eq!(money_to_thai_words(121), "หนึ่งร้อยยี่สิบเอ็ด");
}

#[test]
fn every_place_has_its_word() {
    assert_eq!(money_to_thai_words(30), "สามสิบ");
    assert_eq!(money_to_thai_words(100), "หนึ่งร้อย");
    assert_eq!(money_to_thai_words(1_000), "หนึ่งพัน");
    assert_eq!(money_to_thai_words(10_000), "หนึ่งหมื่น");
    assert_eq!(money_to_thai_words(100_000), "หนึ่งแสน");
    assert_eq!(money_to_thai_words(1_000_000), "หนึ่งล้าน");
    assert_eq!(money_to_thai_words(123_456), "หนึ่งแสนสองหมื่นสามพันสี่ร้อยห้าสิบหก");
    assert_eq!(money_to_thai_words(999_999), "เก้าแสนเก้าหมื่นเก้าพันเก้าร้อยเก้าสิบเก้า");
    assert_eq!(money_to_thai_words(500_005), "ห้าแสนห้า");
}

#[test]
fn millions_are_grouped() {
    assert_eq!(money_to_thai_words(1_000_001), "หนึ่งล้านเอ็ด");
    assert_eq!(money_to_thai_words(10_000_000), "สิบล้าน");
    assert_eq!(money_to_thai_words(21_000_000), "ยี่สิบเอ็ดล้าน");
    assert_eq!(money_to_thai_words(200_000_001), "สองร้อยล้านเอ็ด");
    assert_eq!(money_to_thai_words(1_000_000_000_000), "หนึ่งล้านล้าน");
    assert_eq!(money_to_thai_words(1_000_001_000_000), "หนึ่งล้านเอ็ดล้าน");
    assert_eq!(
        money_to_thai_words(1_234_567_890_123),
        "หนึ่งล้านสองแสนสามหมื่นสี่พันห้าร้อยหกสิบเจ็ดล้านแปดแสนเก้าหมื่นหนึ่งร้อยยี่สิบสาม"
    );
}

#[test]
fn million_grouping_holds_on_samples() {
    let counts: [u64; 7] = [1, 2, 10, 11, 21, 999_999, 1_000_000];
    let rests: [u64; 9] = [0, 1, 2, 10, 11, 21, 101, 100_000, 999_999];
    for n in counts {
        for r in rests {
            let tail = if r == 0 {
                String::new()
            } else if r == 1 {
                "เอ็ด".to_string()
            } else {
                money_to_thai_words(r)
            };
            let expected = format!("{}ล้าน{}", money_to_thai_words(n), tail);
            assert_eq!(money_to_thai_words(n * 1_000_000 + r), expected);
        }
    }
}

#[test]
fn the_largest_number() {
    assert_eq!(
        money_to_thai_words(u64::MAX),
        "สิบแปดล้านสี่แสนสี่หมื่นหกพันเจ็ดร้อยสี่สิบสี่ล้านเจ็ดหมื่นสามพันเจ็ดร้อยเก้าล้านห้าแสนห้าหมื่นหนึ่งพันหกร้อยสิบห้า"
    );
}

#[test]
fn digit_rules() {
    let mut text = String::from("x");
    push_digit(&mut text, 0, 3, false);
    assert_eq!(text, "x");
    push_digit(&mut text, 2, 1, false);
    assert_eq!(text, "xยี่สิบ");
    push_digit(&mut text, 1, 0, false);
    assert_eq!(text, "xยี่สิบเอ็ด");

    let mut alone = String::new();
    push_digit(&mut alone, 1, 0, true);
    assert_eq!(alone, "หนึ่ง");

    let mut ten = String::new();
    push_digit(&mut ten, 1, 1, true);
    assert_eq!(ten, "สิบ");

    let mut hundred = String::new();
    push_digit(&mut hundred, 1, 2, true);
    assert_eq!(hundred, "หนึ่งร้อย");

    let mut two = String::new();
    push_digit(&mut two, 2, 0, true);
    assert_eq!(two, "สอง");

    let mut thousands = String::new();
    push_digit(&mut thousands, 2, 3, false);
    push_digit(&mut thousands, 7, 4, false);
    push_digit(&mut thousands, 9, 5, false);
    assert_eq!(thousands, "สองพันเจ็ดหมื่นเก้าแสน");
}
