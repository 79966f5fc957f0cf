//! Tests of the markup newtype and the renderer output classification.

use pikchr_pl::error::RenderError;
use pikchr_pl::render::{
    classify_render_output, inject_svg_style, render_text_is_empty, render_text_is_error,
    PikchrCode,
};

#[test]
fn pikchr_code_round_trips_its_text() {
    let code = PikchrCode::new("box; arrow; box");
    assert_eq!(code.into_inner(), "box; arrow; box");
}

#[test]
fn renderer_error_marker_is_detected() {
    assert!(render_text_is_error("<svg>ERROR: syntax error at line 1</svg>"));
    assert!(!render_text_is_error("<svg>all fine</svg>"));
}

#[test]
fn empty_diagram_sentinel_is_detected() {
    assert!(render_text_is_empty("<!-- empty pikchr diagram -->"));
    assert!(!render_text_is_empty("<svg>not empty</svg>"));
}

#[test]
fn empty_diagram_classifies_as_empty_result_not_success() {
    let r = classify_render_output(String::from("<!-- empty pikchr diagram -->"), 0, 0);
    match r {
        Err(RenderError::EmptyResult) => (),
        Ok(_) => panic!("the empty-diagram sentinel must not classify as success"),
        Err(_) => panic!("the empty-diagram sentinel must classify as the empty result"),
    }
}

#[test]
fn renderer_reported_error_classifies_as_native_render_error() {
    let text = String::from("ERROR: bad markup");
    let r = classify_render_output(text.clone(), 0, 0);
    match r {
        Err(RenderError::NativeRenderError(m)) => assert_eq!(m, text),
        _ => panic!("expected a native render error carrying the output"),
    }
}

#[test]
fn genuine_success_keeps_text_and_geometry() {
    let r = classify_render_output(String::from("<svg>ok</svg>"), 120, 80);
    match r {
        Ok(out) => {
            assert_eq!(out.text, "<svg>ok</svg>");
            assert_eq!(out.width, 120);
            assert_eq!(out.height, 80);
        },
        Err(_) => panic!("expected success"),
    }
}

#[test]
fn style_is_injected_after_the_opening_tag() {
    let r = inject_svg_style(String::from("<svg a=\"1\"><rect/></svg>"));
    assert_eq!(
        r,
        "<svg a=\"1\"><style>text,path { font-family: 'Space Mono'; }</style><rect/></svg>"
    );
}

#[test]
fn text_without_any_tag_end_is_unchanged() {
    let r = inject_svg_style(String::from("no markup here"));
    assert_eq!(r, "no markup here");
}
