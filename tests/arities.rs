use higher_kinded_types::advanced::extra_arities::{CovariantForLt, ForLtAndLt, ForLtAndTy, WithLifetimes};
use higher_kinded_types::advanced::ForLifetimeMaybeUnsized;
use higher_kinded_types::{ForLt, ForRef, ForRefMut, WithLifetime};

struct StrRef;

impl CovariantForLt for StrRef {
    type Of<'lt> = &'lt str;

    fn covariant_cast<'smol, 'humongous: 'smol>(it: &'humongous str) -> &'smol str {
        it
    }
}

fn shrink<'smol, 'humongous: 'smol>(it: &'humongous str) -> &'smol str {
    StrRef::covariant_cast(it)
}

#[test]
fn covariant_cast_is_the_identity() {
    let long_lived: &'static str = "static";
    let short: &str = shrink(long_lived);
    assert!(std::ptr::eq(short, long_lived));
    let local = String::from("local");
    assert_eq!(shrink(local.as_str()), "local");
}

struct ReaderAndSink;

impl<'a, 'b> WithLifetimes<'a, 'b> for ReaderAndSink {
    type T = (&'a str, &'b mut Vec<u8>);
}

fn poll_until_done<F>(mut poll: F) -> usize
where
    F: FnMut(<ReaderAndSink as ForLtAndLt>::Of<'_, '_>) -> bool,
{
    let mut rounds: usize = 0;
    let mut sink: Vec<u8> = Vec::new();
    loop {
        rounds += 1;
        let input = format!("round {}", rounds);
        let done = {
            let short_input: &str = &input;
            let short_sink: &mut Vec<u8> = &mut sink;
            poll((short_input, short_sink))
        };
        if done {
            return sink.len();
        }
    }
}

#[test]
fn two_lifetime_marker_feeds_a_polling_callback() {
    let written = poll_until_done(|(input, sink)| {
        sink.extend_from_slice(input.as_bytes());
        input.ends_with('3')
    });
    assert_eq!(written, "round 1round 2round 3".len());
}

fn first_len<'a, 'b>(pair: <ReaderAndSink as ForLtAndLt>::Of<'a, 'b>) -> usize {
    let (reader, sink): (&'a str, &'b mut Vec<u8>) = pair;
    sink.push(0);
    reader.len()
}

#[test]
fn two_lifetime_marker_substitutes_both_lifetimes() {
    let text = String::from("abc");
    let mut sink = vec![9_u8];
    assert_eq!(first_len((&text, &mut sink)), 3);
    assert_eq!(sink, vec![9, 0]);
}

struct PairWith;

impl<T: Send + Sync + 'static> ForLtAndTy<T> for PairWith {
    type Of<'lt> = (&'lt str, T);
}

fn label<'lt, T: Send + Sync + 'static>(it: <PairWith as ForLtAndTy<T>>::Of<'lt>) -> &'lt str {
    it.0
}

#[test]
fn lifetime_and_type_marker() {
    let name = String::from("n");
    assert_eq!(label::<u8>((&name, 1)), "n");
}

struct Bytes;

impl<'lt> WithLifetime<'lt> for Bytes {
    type Of = &'lt [u8];
}

fn identity<'a, M: ForLt>(it: M::Of<'a>) -> M::Of<'a> {
    it
}

fn by_ref<'a, M: ForLifetimeMaybeUnsized>(it: &'a M::Of<'a>) -> &'a M::Of<'a> {
    it
}

#[test]
fn one_lifetime_markers() {
    let data = vec![1_u8, 2];
    assert_eq!(identity::<Bytes>(&data), &[1, 2]);
    let word = String::from("w");
    assert_eq!(identity::<ForRef<str>>(&word), "w");
    let n: i32 = 3;
    assert_eq!(*identity::<ForRef<i32>>(&n), 3);
    let mut m: i32 = 4;
    *identity::<ForRefMut<i32>>(&mut m) += 1;
    assert_eq!(m, 5);
    let s: &str = "x";
    assert_eq!(*by_ref::<ForRef<str>>(&s), "x");
}

type AnonymousPair = higher_kinded_types::markers::ForLtAndLt<
    dyn for<'a, 'b> WithLifetimes<'a, 'b, T = (&'a str, &'b str)> + Send + Sync,
>;

fn longer<'a, 'b>(pair: <AnonymousPair as ForLtAndLt>::Of<'a, 'b>) -> usize {
    pair.0.len().max(pair.1.len())
}

#[test]
fn anonymous_two_lifetime_marker() {
    let first = String::from("ab");
    {
        let second = String::from("abcd");
        assert_eq!(longer((&first, &second)), 4);
    }
}

type AnonymousSlice = higher_kinded_types::markers::ForLt<dyn for<'lt> WithLifetime<'lt, Of = &'lt [u8]>>;

#[test]
fn anonymous_one_lifetime_marker() {
    let data = vec![7_u8];
    assert_eq!(identity::<AnonymousSlice>(&data), &[7]);
    let fixed: <higher_kinded_types::ForFixed<std::rc::Rc<i32>> as ForLt>::Of<'_> = std::rc::Rc::new(1);
    assert_eq!(*fixed, 1);
}
