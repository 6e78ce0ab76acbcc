use yoke_gen::bundle::YokeGen;
use yoke_gen::{Yoke, YokeMut, Yokeable};

struct Words;

impl Yokeable for Words {
    type Output = Vec<String>;
}

struct Longest;

impl Yokeable for Longest {
    type Output = String;
}

fn words(s: &str) -> Vec<String> {
    s.split(' ').map(|w| w.to_string()).collect()
}

fn longest(v: Vec<String>) -> Result<String, usize> {
    let count = v.len();
    match v.into_iter().filter(|w| !w.is_empty()).max_by_key(|w| w.len()) {
        Some(w) => Ok(w),
        None => Err(count),
    }
}

#[test]
fn fallible_transform_keeps_the_cart_on_success() {
    let bundle: Yoke<Words, String> = Yoke::attach_to_cart(String::from("a bcd ef"), words);
    let out: Result<Yoke<Longest, String>, (usize, String)> = bundle.try_map_or_cart(longest);
    let next = match out {
        Ok(next) => next,
        Err(_) => panic!("the transform failed"),
    };
    assert_eq!(next.with_ref(|w| w.clone()), "bcd");
    assert_eq!(next.backing_cart(), "a bcd ef");
}

#[test]
fn fallible_transform_returns_the_cart_on_failure() {
    let bundle: Yoke<Words, String> = Yoke::attach_to_cart(String::from(" "), words);
    let out: Result<Yoke<Longest, String>, (usize, String)> = bundle.try_map_or_cart(longest);
    match out {
        Ok(_) => panic!("the transform succeeded"),
        Err((err, cart)) => {
            assert_eq!(err, 2);
            assert_eq!(cart, " ");
        }
    }
}

#[test]
fn try_map_gives_the_bundle_or_the_error() {
    let good: Yoke<Words, String> = Yoke::attach_to_cart(String::from("xy z"), words);
    let out: Result<Yoke<Longest, String>, usize> = good.try_map(longest);
    match out {
        Ok(next) => {
            assert_eq!(next.with_ref(|w| w.len()), 2);
            assert_eq!(next.into_cart(), "xy z");
        }
        Err(_) => panic!("the transform failed"),
    }
    let bad: Yoke<Words, String> = Yoke::attach_to_cart(String::new(), words);
    let out: Result<Yoke<Longest, String>, usize> = bad.try_map(longest);
    match out {
        Ok(_) => panic!("the transform succeeded"),
        Err(err) => assert_eq!(err, 1),
    }
}

#[test]
fn map_keeps_the_capability() {
    let bundle: YokeMut<Words, String> =
        Yoke::attach_to_cart_mut(String::from("one two"), |s: &mut str| words(s));
    let mut next: YokeMut<Longest, String> = bundle.map(|v| v.concat());
    next.with_mut(|w| w.push('!'));
    assert_eq!(next.with_ref(|w| w.clone()), "onetwo!");
    assert_eq!(next.into_cart(), "one two");
}

#[test]
fn into_inner_keeps_only_the_result() {
    let bundle: Yoke<Words, String> = Yoke::attach_to_cart(String::from("p q r"), words);
    let joined = bundle.into_inner(|v| v.join("-"));
    assert_eq!(joined, "p-q-r");
}

#[test]
fn into_cart_drops_the_view() {
    let bundle: YokeGen<Words, Vec<u8>> =
        Yoke::attach_to_cart(vec![104u8, 105], |s: &[u8]| vec![String::from_utf8_lossy(s).into_owned()]);
    assert_eq!(bundle.with_ref(|v| v[0].clone()), "hi");
    assert_eq!(bundle.into_cart(), vec![104u8, 105]);
}

#[test]
fn backing_cart_borrows_the_cart() {
    let bundle: Yoke<Words, String> = Yoke::attach_to_cart(String::from("k l"), words);
    let cart: &String = bundle.backing_cart();
    assert_eq!(cart, "k l");
    assert_eq!(bundle.with_ref(|v| v.len()), 2);
}
