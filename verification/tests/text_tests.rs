use storage_bench::text::{prefix_num, template, u32_to_string};

#[test]
fn decimal_rendering_exact() {
    assert_eq!(u32_to_string(0), "0");
    assert_eq!(u32_to_string(7), "7");
    assert_eq!(u32_to_string(10), "10");
    assert_eq!(u32_to_string(105), "105");
    assert_eq!(u32_to_string(4294967295), "4294967295");
}

#[test]
fn template_builds_prefix_number_suffix() {
    assert_eq!(prefix_num("user", 12), "user12");
    assert_eq!(template("user", 12, "@example.com"), "user12@example.com");
    assert_eq!(template("", 3, ""), "3");
}
