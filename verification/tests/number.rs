use devstats::number::{
    integer_to_string, natural_to_string, string_to_num, string_to_num_must, Malformed,
};

fn malformed(value: &str, target: &str) -> Malformed {
    Malformed { value: value.to_string(), target: target.to_string() }
}

#[test]
fn string_to_num_reads_plain_decimals() {
    assert_eq!(string_to_num::<i16>("0"), Ok(0));
    assert_eq!(string_to_num::<i16>("12"), Ok(12));
    assert_eq!(string_to_num::<i16>("-5"), Ok(-5));
    assert_eq!(string_to_num::<i16>("+7"), Ok(7));
    assert_eq!(string_to_num::<i16>("007"), Ok(7));
    assert_eq!(string_to_num::<u16>("65535"), Ok(65535));
    assert_eq!(string_to_num::<i64>("-9223372036854775808"), Ok(i64::MIN));
    assert_eq!(string_to_num::<u64>("18446744073709551615"), Ok(u64::MAX));
}

#[test]
fn string_to_num_keeps_to_the_range_of_the_type() {
    assert_eq!(string_to_num::<i8>("127"), Ok(127));
    assert_eq!(string_to_num::<i8>("128"), Err(malformed("128", "i8")));
    assert_eq!(string_to_num::<i8>("-128"), Ok(-128));
    assert_eq!(string_to_num::<i8>("-129"), Err(malformed("-129", "i8")));
    assert_eq!(string_to_num::<u8>("255"), Ok(255));
    assert_eq!(string_to_num::<u8>("256"), Err(malformed("256", "u8")));
    assert_eq!(string_to_num::<i32>("2147483648"), Err(malformed("2147483648", "i32")));
    assert_eq!(string_to_num::<u32>("4294967295"), Ok(u32::MAX));
    assert_eq!(
        string_to_num::<u64>("18446744073709551616"),
        Err(malformed("18446744073709551616", "u64"))
    );
    assert_eq!(
        string_to_num::<i64>("99999999999999999999999999999999999999999999"),
        Err(malformed("99999999999999999999999999999999999999999999", "i64"))
    );
    assert_eq!(string_to_num::<i8>("0000000000000000000000000000000000000000001"), Ok(1));
}

#[test]
fn string_to_num_refuses_what_is_no_decimal() {
    for bad in ["", "+", "-", "abc", "12a", " 5", "5 ", "1.5", "--1", "+-1", "0x10", "١٢"] {
        assert_eq!(string_to_num::<i16>(bad), Err(malformed(bad, "i16")), "{:?}", bad);
    }
}

#[test]
fn string_to_num_takes_no_minus_for_an_unsigned_type() {
    assert_eq!(string_to_num::<u16>("-0"), Err(malformed("-0", "u16")));
    assert_eq!(string_to_num::<u16>("-1"), Err(malformed("-1", "u16")));
    assert_eq!(string_to_num::<u16>("+0"), Ok(0));
    assert_eq!(string_to_num::<i16>("-0"), Ok(0));
}

#[test]
fn string_to_num_agrees_with_std() {
    let texts = [
        "", "0", "-0", "+0", "1", "-1", "+1", "127", "128", "-128", "-129", "255", "256", "32767",
        "32768", "-32768", "-32769", "65535", "65536", "00012", "+", "-", "1-", "a", "1a", " 1",
    ];
    for t in texts {
        assert_eq!(string_to_num::<i8>(t).ok(), t.parse::<i8>().ok(), "i8 {:?}", t);
        assert_eq!(string_to_num::<u8>(t).ok(), t.parse::<u8>().ok(), "u8 {:?}", t);
        assert_eq!(string_to_num::<i16>(t).ok(), t.parse::<i16>().ok(), "i16 {:?}", t);
        assert_eq!(string_to_num::<u16>(t).ok(), t.parse::<u16>().ok(), "u16 {:?}", t);
        assert_eq!(string_to_num::<i32>(t).ok(), t.parse::<i32>().ok(), "i32 {:?}", t);
        assert_eq!(string_to_num::<u32>(t).ok(), t.parse::<u32>().ok(), "u32 {:?}", t);
        assert_eq!(string_to_num::<i64>(t).ok(), t.parse::<i64>().ok(), "i64 {:?}", t);
        assert_eq!(string_to_num::<u64>(t).ok(), t.parse::<u64>().ok(), "u64 {:?}", t);
    }
}

#[test]
fn string_to_num_must_gives_the_number() {
    assert_eq!(string_to_num_must::<i8>("-3"), -3);
    assert_eq!(string_to_num_must::<u16>("4096"), 4096);
}

#[test]
fn numbers_are_written_in_decimal() {
    assert_eq!(natural_to_string(0), "0");
    assert_eq!(natural_to_string(7), "7");
    assert_eq!(natural_to_string(3600), "3600");
    assert_eq!(natural_to_string(u64::MAX), "18446744073709551615");
    assert_eq!(integer_to_string(0), "0");
    assert_eq!(integer_to_string(-1), "-1");
    assert_eq!(integer_to_string(42), "42");
    assert_eq!(integer_to_string(i64::MIN), "-9223372036854775808");
    assert_eq!(integer_to_string(i64::MAX), "9223372036854775807");
}

#[test]
fn written_numbers_are_read_back() {
    for n in [0i64, 1, -1, 9, 10, -10, 12345, -32768, i64::MAX, i64::MIN] {
        assert_eq!(string_to_num::<i64>(&integer_to_string(n)), Ok(n));
    }
}
