use selfie::bytes::{ByteSpan, MutBytes};
use selfie::refs::{Mut, Ref};
use selfie::{Selfie, SelfieError, SelfieMut};

#[test]
pub fn test() {
    let strtest = String::from("hello");
    let selfie: Selfie<String, Ref<String>> = Selfie::new(strtest, |s| s[0..1].to_owned());
    selfie.with_referential(|r| assert_eq!("h", r));
    assert_eq!("hello", selfie.into_owned());
}

#[test]
fn it_works() {
    let data: Selfie<u32, Ref<u32>> = Selfie::new(42, |i| *i);
    assert_eq!(42, data.with_referential(|r| *r));
    assert_eq!(42, data.into_owned());
}

#[test]
fn owner_round_trip() {
    // Shared variant: teardown yields the owner however the view looked.
    let s: Selfie<String, Ref<String>> = Selfie::new("Hello, world!".to_owned(), |o| o.clone());
    assert_eq!("Hello, world!", s.into_owned());

    // Exclusive variant over the whole-value family, no-op build: the
    // owner comes back unchanged when nothing was written.
    let m: SelfieMut<String, Mut<String>> = SelfieMut::new("Hello, world!".to_owned(), |o| o.clone());
    assert_eq!("Hello, world!", m.into_owned());
}

#[test]
fn fallible_construction_recovery() {
    // Shared variant: a build function that always errors leaves the
    // owner recoverable, unmodified, from the error value.
    let failed: Result<Selfie<String, Ref<String>>, SelfieError<String, u8>> =
        Selfie::try_new("Hello, world!".to_owned(), |_| Err(7));
    let err = failed.err().unwrap();
    assert_eq!(7, err.error);
    assert_eq!("Hello, world!", err.owned);

    // Exclusive variant, same policy.
    let failed: Result<SelfieMut<String, Mut<String>>, SelfieError<String, u8>> =
        SelfieMut::try_new("Hello, world!".to_owned(), |_| Err(9));
    let err = failed.err().unwrap();
    assert_eq!(9, err.error);
    assert_eq!("Hello, world!", err.owned);
}

#[test]
fn try_new_success() {
    let made: Result<Selfie<String, Ref<String>>, SelfieError<String, u8>> =
        Selfie::try_new("Hello, world!".to_owned(), |s| Ok(s[0..5].to_owned()));
    let selfie = made.ok().unwrap();
    assert_eq!("Hello", selfie.with_referential(|r| r.clone()));
    assert_eq!("Hello, world!", selfie.owned());
}

#[test]
fn byte_span_basics() {
    let buffer = b"Hello, world!".to_vec();
    let mut span = ByteSpan::carve(&buffer, 7, 12);
    assert_eq!(5, span.len());
    assert_eq!(b'w', span.get(0));
    assert_eq!(b'd', span.get(4));
    span.set(0, b'W');
    assert_eq!(b'W', span.get(0));
    assert_eq!(b"World", &span.data[..]);
    // Carving copies: the buffer itself is untouched until a merge.
    assert_eq!(b"Hello, world!", &buffer[..]);
}

#[test]
fn exclusive_view_mutation() {
    let buffer = b"Hello, world!".to_vec();
    let mut selfie: SelfieMut<Vec<u8>, MutBytes> =
        SelfieMut::new(buffer, |o| ByteSpan::carve(o, 0, 5));

    selfie.with_referential(|r| assert_eq!(b"Hello", &r.data[..]));
    selfie.with_referential_mut(|r| {
        let mut r = r;
        r.set(1, b'a');
        (r, ())
    });
    selfie.with_referential(|r| assert_eq!(b"Hallo", &r.data[..]));

    let recovered = selfie.into_owned();
    assert_eq!(b"Hallo, world!", &recovered[..]);
}

#[test]
fn map_after_mutation_keeps_writes() {
    let buffer = b"Hello".to_vec();
    let mut selfie: SelfieMut<Vec<u8>, MutBytes> =
        SelfieMut::new(buffer, |o| ByteSpan::carve(o, 0, 5));
    selfie.with_referential_mut(|r| {
        let mut r = r;
        r.set(0, b'J');
        (r, ())
    });

    // Mapping writes the old view back first, so the change shows in the
    // shared container's owner.
    let shared: Selfie<Vec<u8>, Ref<usize>> = selfie.map(|r| r.len());
    assert_eq!(b"Jello", &shared.owned()[..]);
    assert_eq!(5, shared.with_referential(|r| *r));
}

#[test]
fn try_map_error_keeps_writes() {
    let buffer = b"Hello".to_vec();
    let mut selfie: SelfieMut<Vec<u8>, MutBytes> =
        SelfieMut::new(buffer, |o| ByteSpan::carve(o, 0, 5));
    selfie.with_referential_mut(|r| {
        let mut r = r;
        r.set(0, b'J');
        (r, ())
    });

    // A failed mapping still hands back the owner with the old view
    // written back: no change made through the view is lost.
    let failed: Result<Selfie<Vec<u8>, Ref<usize>>, SelfieError<Vec<u8>, &str>> =
        selfie.try_map(|_| Err("Haha"));
    let err = failed.err().unwrap();
    assert_eq!("Haha", err.error);
    assert_eq!(b"Jello", &err.owned[..]);
}

#[test]
fn shared_view_replacement_keeps_owner() {
    let my_str = "Hello, world!".to_owned();
    let mut selfie: Selfie<String, Ref<String>> = Selfie::new(my_str, |s| s[0..5].to_owned());

    assert_eq!("Hello", selfie.with_referential(|r| r.clone()));
    assert_eq!("Hello, world!", selfie.owned());

    selfie.with_referential_mut(|s| (s[0..2].to_owned(), ()));

    assert_eq!("He", selfie.with_referential(|r| r.clone()));
    assert_eq!("Hello, world!", selfie.owned());
}
