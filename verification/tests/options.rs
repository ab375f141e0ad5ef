use tmpfs_init::options::join_options;
use tmpfs_init::text::{nul_free, nul_free_all};

fn texts(items: &[&str]) -> Vec<String> {
    items.iter().map(|s| s.to_string()).collect()
}

#[test]
fn join_of_no_options_is_empty() {
    assert_eq!(join_options(&Vec::new()), "");
}

#[test]
fn join_of_two_options_is_comma_separated() {
    assert_eq!(join_options(&texts(&["a=1", "b=2"])), "a=1,b=2");
}

#[test]
fn join_of_one_option_has_no_separator() {
    assert_eq!(join_options(&texts(&["size=4G"])), "size=4G");
}

#[test]
fn join_keeps_the_order_of_the_options() {
    assert_eq!(join_options(&texts(&["c", "a", "b"])), "c,a,b");
    assert_ne!(join_options(&texts(&["c", "a", "b"])), "a,b,c");
}

#[test]
fn join_has_no_trailing_separator() {
    let data = join_options(&texts(&["lowerdir=/", "upperdir=/u", "workdir=/w"]));
    assert_eq!(data, "lowerdir=/,upperdir=/u,workdir=/w");
    assert!(!data.ends_with(','));
    assert!(!data.starts_with(','));
}

#[test]
fn join_separates_empty_options_too() {
    assert_eq!(join_options(&texts(&[""])), "");
    assert_eq!(join_options(&texts(&["", ""])), ",");
    assert_eq!(join_options(&texts(&["", "x", ""])), ",x,");
}

#[test]
fn join_does_not_touch_the_options_themselves() {
    assert_eq!(join_options(&texts(&["a,b", "c=d=e", " "])), "a,b,c=d=e, ");
    assert_eq!(join_options(&texts(&["größe=4G", "x"])), "größe=4G,x");
}

#[test]
fn nul_free_accepts_text_without_nul() {
    assert!(nul_free(""));
    assert!(nul_free("tmpfs"));
    assert!(nul_free("/mnt/tmpfs-init/root/dev"));
    assert!(nul_free("größe"));
}

#[test]
fn nul_free_rejects_a_nul_anywhere() {
    assert!(!nul_free("\0"));
    assert!(!nul_free("\0tmpfs"));
    assert!(!nul_free("tm\0pfs"));
    assert!(!nul_free("tmpfs\0"));
}

#[test]
fn nul_free_all_wants_every_text_free() {
    assert!(nul_free_all(&Vec::new()));
    assert!(nul_free_all(&texts(&["a", "", "b"])));
    assert!(!nul_free_all(&texts(&["a", "b\0", "c"])));
    assert!(!nul_free_all(&texts(&["\0"])));
    assert!(!nul_free_all(&texts(&["a", "b", "c\0d"])));
}
