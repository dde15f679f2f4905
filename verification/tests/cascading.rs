use selfie::bytes::{ByteSpan, MutBytes};
use selfie::refs::{Ref, SelfieRef, SelfieRefMut};
use selfie::{Selfie, SelfieMut};

#[test]
pub fn cascading() {
    let my_str = "Hello, world!".to_owned();
    let selfie: Selfie<String, SelfieRef<Ref<String>, Ref<String>>> = Selfie::new(my_str, |i| {
        let substr = i[0..5].to_owned();
        Selfie::new(substr, |i| i[3..].to_owned())
    });

    assert_eq!("Hello, world!", selfie.owned());
    selfie.with_referential(|r1| {
        assert_eq!("Hello", r1.owned());
        assert_eq!("lo", r1.with_referential(|r| r.clone()));
    });

    // Moving the Selfie has no consequence
    let selfie = Box::new(selfie);

    assert_eq!("Hello, world!", selfie.owned());
    selfie.with_referential(|r1| {
        assert_eq!("Hello", r1.owned());
        assert_eq!("lo", r1.with_referential(|r| r.clone()));
    });
}

#[test]
pub fn more_cascading() {
    let my_str = "Hello, world!".to_owned();

    let data: Selfie<String, SelfieRef<Ref<String>, SelfieRef<Ref<String>, Ref<String>>>> =
        Selfie::new(my_str, |i| {
            let substr = i[0..5].to_owned();
            Selfie::new(substr, |i| {
                let substr = i[1..].to_owned();
                Selfie::new(substr, |i| i[2..].to_owned())
            })
        });

    assert_eq!("Hello, world!", data.owned());
    data.with_referential(|r1| {
        assert_eq!("Hello", r1.owned());
        r1.with_referential(|r2| {
            assert_eq!("ello", r2.owned());
            r2.with_referential(|r3| {
                assert_eq!("lo", r3);
            })
        })
    });

    let data = Box::new(data);

    assert_eq!("Hello, world!", data.owned());
    data.with_referential(|r1| {
        assert_eq!("Hello", r1.owned());
        r1.with_referential(|r2| {
            assert_eq!("ello", r2.owned());
            r2.with_referential(|r3| {
                assert_eq!("lo", r3);
            })
        })
    });
}

#[test]
pub fn cascading_mut() {
    let my_str = b"Hello, world!".to_vec();

    let mut selfie: SelfieMut<Vec<u8>, SelfieRefMut<MutBytes, MutBytes>> =
        SelfieMut::new(my_str, |i| {
            let span = ByteSpan::carve(i, 0, 5);
            SelfieMut::new(span, |s| ByteSpan::carve(&s.data, 3, s.data.len()))
        });

    selfie.with_referential(|r1| r1.with_referential(|r2| assert_eq!(b"lo", &r2.data[..])));
    selfie.with_referential_mut(|r1| {
        let mut r1 = r1;
        r1.with_referential_mut(|r2| {
            let mut r2 = r2;
            r2.set(1, b'a');
            (r2, ())
        });
        (r1, ())
    });
    selfie.with_referential(|r1| r1.with_referential(|r2| assert_eq!(b"la", &r2.data[..])));

    let selfie = Box::new(selfie);
    selfie.with_referential(|r1| r1.with_referential(|r2| assert_eq!(b"la", &r2.data[..])));
    let my_str = selfie.into_owned();
    assert_eq!(b"Hella, world!", &my_str[..]);
}
