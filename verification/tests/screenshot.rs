use openharmony_ability::bridge::BridgeError;
use openharmony_ability::screenshot::{captured_image_result, picked_color_result, CapturedImage, Rgba, ScreenshotError};
use openharmony_ability::webview::{WebviewCaptureResponse, WebviewPickColorResponse};

#[test]
fn unknown_controller_marker_maps_to_unknown_webview() {
    let err = ScreenshotError::from_reason("Unknown WebView controller 'main'");
    assert!(matches!(err, ScreenshotError::UnknownWebview { .. }));
}

#[test]
fn snapshot_failure_markers_map_to_snapshot_unavailable() {
    for reason in [
        "webPageSnapshot failed: 17100001 - internal error",
        "webPageSnapshot timed out after 10s",
        "webPageSnapshot returned empty or failed result",
        "capture failed: timed out",
    ] {
        let err = ScreenshotError::from_reason(reason);
        assert!(
            matches!(err, ScreenshotError::SnapshotUnavailable { .. }),
            "expected SnapshotUnavailable for {reason}"
        );
    }
}

#[test]
fn other_reasons_map_to_internal() {
    for reason in [
        "capture-webview failed: ImagePacker error 62980115",
        "pick-color failed: pick-color coordinates (5, 5) out of captured bounds 100x50",
        "pick-color requires x and y as integers",
    ] {
        let err = ScreenshotError::from_reason(reason);
        assert!(matches!(err, ScreenshotError::Internal { .. }), "expected Internal for {reason}");
    }
}

#[test]
fn captured_image_and_rgba_convert_from_wire_types() {
    let image = CapturedImage::from(WebviewCaptureResponse {
        png_base64: "iVBORw0KGgo=".to_string(),
        width: 800,
        height: 600,
    });
    assert_eq!(image.width, 800);
    assert_eq!(image.height, 600);
    assert_eq!(image.png_base64, "iVBORw0KGgo=");
    let color = Rgba::from(WebviewPickColorResponse { r: 255, g: 0, b: 0, a: 255 });
    assert_eq!(color, Rgba { r: 255, g: 0, b: 0, a: 255 });
}

#[test]
fn snapshot_marker_matching_ignores_case() {
    assert!(matches!(
        ScreenshotError::from_reason("WEBPAGESNAPSHOT broke"),
        ScreenshotError::SnapshotUnavailable { .. }
    ));
    assert!(matches!(
        ScreenshotError::from_reason("Timed Out"),
        ScreenshotError::SnapshotUnavailable { .. }
    ));
}

#[test]
fn screenshot_error_messages() {
    let err = ScreenshotError::from_reason("Unknown WebView controller 'main'");
    assert_eq!(err.message(), "unknown webview: Unknown WebView controller 'main'");
    let r: Result<WebviewCaptureResponse, BridgeError> = Err(BridgeError::from_reason("boom"));
    match captured_image_result(r) {
        Err(e) => assert_eq!(e.into_bridge_error().reason, "screenshot internal error: boom"),
        Ok(_) => panic!("expected an error"),
    }
    let ok = Ok(WebviewCaptureResponse { png_base64: "x".into(), width: 1, height: 2 });
    let img = captured_image_result(ok).unwrap();
    assert_eq!((img.png_base64.as_str(), img.width, img.height), ("x", 1, 2));
    let color = picked_color_result(Ok(WebviewPickColorResponse { r: 1, g: 2, b: 3, a: 4 })).unwrap();
    assert_eq!(color, Rgba { r: 1, g: 2, b: 3, a: 4 });
    assert!(matches!(
        picked_color_result(Err(BridgeError::from_reason("Unknown WebView controller 'x'"))),
        Err(ScreenshotError::UnknownWebview { .. })
    ));
}
