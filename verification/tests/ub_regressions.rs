use selfie::refs::Mut;
use selfie::SelfieMut;

fn helper_mut(mut owning_ref: SelfieMut<u8, Mut<u8>>) -> u8 {
    owning_ref.with_referential_mut(|_r| (20, ()));
    owning_ref.with_referential(|r| *r)
}

#[test]
fn cell_mut() {
    let val: u8 = 25;
    let owning_ref = SelfieMut::new(val, |c| *c);
    let res = helper_mut(owning_ref);
    assert_eq!(res, 20);
}

#[test]
fn mutation_reaches_owner() {
    let val: u8 = 25;
    let mut owning_ref: SelfieMut<u8, Mut<u8>> = SelfieMut::new(val, |c| *c);
    owning_ref.with_referential_mut(|_r| (20, ()));
    assert_eq!(20, owning_ref.into_owned());
}
