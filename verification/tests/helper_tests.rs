use draw_core::num::{floor_div, isqrt, trunc_rem};
use draw_core::text::{ext_of, str_eq};

#[test]
fn floor_division_rounds_toward_negative_infinity() {
    assert_eq!(floor_div(7, 2), 3);
    assert_eq!(floor_div(-7, 2), -4);
    assert_eq!(floor_div(8, 4), 2);
    assert_eq!(floor_div(-8, 4), -2);
    assert_eq!(floor_div(0, 5), 0);
}

#[test]
fn truncating_remainder_keeps_the_dividend_sign() {
    assert_eq!(trunc_rem(7, 2), 1);
    assert_eq!(trunc_rem(-7, 2), -1);
    assert_eq!(trunc_rem(16, 16), 0);
    assert_eq!(trunc_rem(-16, 16), 0);
    assert_eq!(trunc_rem(4, 16), 4);
}

#[test]
fn integer_square_root_floors() {
    assert_eq!(isqrt(0), 0);
    assert_eq!(isqrt(1), 1);
    assert_eq!(isqrt(24), 4);
    assert_eq!(isqrt(25), 5);
    assert_eq!(isqrt(26), 5);
    assert_eq!(isqrt(u64::MAX), 0xffff_ffff);
}

#[test]
fn extension_is_what_follows_the_last_dot() {
    assert_eq!(ext_of("hero.png"), "png");
    assert_eq!(ext_of("a/b.tar.gz"), "gz");
    assert_eq!(ext_of("dir.d/file"), "");
    assert_eq!(ext_of("noext"), "");
    assert_eq!(ext_of(".gitignore"), "");
    assert_eq!(ext_of("trailing."), "");
    assert_eq!(ext_of("assets/ui/panel.9.png"), "png");
}

#[test]
fn string_equality_compares_characters() {
    assert!(str_eq("abc", "abc"));
    assert!(!str_eq("abc", "abd"));
    assert!(!str_eq("abc", "abcd"));
    assert!(str_eq("", ""));
}
