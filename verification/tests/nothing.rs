#[allow(unused_imports)]
use derive_builder::generate::generate;

#[test]
fn nothing() {}

#[test]
#[should_panic]
fn panic() {
    panic!("Panicing");
}
