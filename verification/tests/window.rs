use openharmony_ability::registry::{next_window_id, ProcessRegistry};
use openharmony_ability::window::{create_os_window, sub_window_result, SubWindowDispatch, WindowCreateParams};

#[test]
fn window_params_default_to_a_decorated_800_by_600_app_window() {
    let p = WindowCreateParams::default();
    assert_eq!(p.name, "");
    assert_eq!(p.window_type, 0);
    assert_eq!((p.width, p.height, p.x, p.y), (800, 600, 100, 100));
    assert!(p.decorations);
    assert!(!p.transparent);
    assert_eq!(p.background_color, None);
}

#[test]
fn creating_a_window_takes_the_next_id_even_when_dispatch_fails() {
    let mut reg = ProcessRegistry::new();
    let params = WindowCreateParams { name: "float".into(), window_type: 8, background_color: Some(0xff00ff00), ..WindowCreateParams::default() };
    let req = create_os_window(&mut reg, params);
    assert_eq!(req.window_id, 1);
    assert_eq!(req.name, "float");
    assert_eq!(req.background_color, Some(0xff00ff00));
    assert_eq!(
        sub_window_result(req.window_id, SubWindowDispatch::NotInitialized).unwrap_err().reason,
        "create_sub_window TSFN not initialized"
    );
    assert_eq!(next_window_id(&mut reg), 2);
    assert_eq!(
        sub_window_result(2, SubWindowDispatch::Failed("Closing".into())).unwrap_err().reason,
        "TSFN call failed: Closing"
    );
    assert_eq!(sub_window_result(2, SubWindowDispatch::Dispatched).unwrap(), 2);
}
