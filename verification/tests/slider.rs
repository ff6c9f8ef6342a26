use masonry::slider::{slider_access_move, slider_key_move, slider_role, SliderMove};
use masonry::widget::{AccessAction, AccessRole, KeyInput};

#[test]
fn slider_key_moves() {
    let step = |up, big| Some(SliderMove::Step { up, big });
    assert_eq!(slider_key_move(&KeyInput::ArrowRight, false, false, false, true), step(true, false));
    assert_eq!(slider_key_move(&KeyInput::ArrowUp, true, false, false, true), step(true, true));
    assert_eq!(slider_key_move(&KeyInput::ArrowLeft, false, false, false, true), step(false, false));
    assert_eq!(slider_key_move(&KeyInput::ArrowDown, true, false, false, true), step(false, true));
    assert_eq!(slider_key_move(&KeyInput::Home, false, false, false, true), Some(SliderMove::ToMin));
    assert_eq!(slider_key_move(&KeyInput::End, false, false, false, true), Some(SliderMove::ToMax));
    assert_eq!(slider_key_move(&KeyInput::Enter, false, false, false, true), None);
    // Released keys, a disabled slider and a slider without the focus do not move.
    assert_eq!(slider_key_move(&KeyInput::End, false, true, false, true), None);
    assert_eq!(slider_key_move(&KeyInput::End, false, false, true, true), None);
    assert_eq!(slider_key_move(&KeyInput::End, false, false, false, false), None);
}

#[test]
fn slider_access_moves() {
    assert_eq!(slider_access_move(AccessAction::Increment, false), Some(SliderMove::Step { up: true, big: false }));
    assert_eq!(slider_access_move(AccessAction::Decrement, false), Some(SliderMove::Step { up: false, big: false }));
    assert_eq!(slider_access_move(AccessAction::SetValue, false), Some(SliderMove::SetValue));
    assert_eq!(slider_access_move(AccessAction::Click, false), None);
    assert_eq!(slider_access_move(AccessAction::Increment, true), None);
    assert_eq!(slider_role(), AccessRole::Slider);
}
