use wm_backend::input::{
    combine, KEY_PRESS_MASK, SUBSTRUCTURE_NOTIFY_MASK, SUBSTRUCTURE_REDIRECT_MASK,
};
use wm_backend::Input;

#[test]
fn masks_match_protocol_bits() {
    assert_eq!(Input::KeyPress.mask(), 1);
    assert_eq!(Input::SubstructureNotify.mask(), 1 << 19);
    assert_eq!(Input::SubstructureRedirect.mask(), 1 << 20);
}

#[test]
fn combine_of_nothing_is_zero() {
    assert_eq!(combine(&vec![]), 0);
}

#[test]
fn combine_is_or_of_masks() {
    let all = vec![
        Input::SubstructureNotify,
        Input::SubstructureRedirect,
        Input::KeyPress,
    ];
    assert_eq!(
        combine(&all),
        KEY_PRESS_MASK | SUBSTRUCTURE_NOTIFY_MASK | SUBSTRUCTURE_REDIRECT_MASK
    );
    assert_eq!(combine(&all), 0x18_0001);
}

#[test]
fn combine_ignores_order() {
    let a = vec![Input::KeyPress, Input::SubstructureRedirect];
    let b = vec![Input::SubstructureRedirect, Input::KeyPress];
    assert_eq!(combine(&a), combine(&b));
    assert_eq!(combine(&a), 0x10_0001);
}

#[test]
fn combine_ignores_duplicates() {
    let once = vec![Input::SubstructureNotify];
    let thrice = vec![
        Input::SubstructureNotify,
        Input::SubstructureNotify,
        Input::SubstructureNotify,
    ];
    assert_eq!(combine(&once), combine(&thrice));
    assert_eq!(combine(&thrice), 0x8_0000);
}
