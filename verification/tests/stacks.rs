use implot::{
    push_style_color, push_style_var_f32, push_style_var_i32, push_style_var_imvec2, ImVec2,
    ImVec4, Marker, PlotCall, PlotColorElement, StyleVar,
};

#[test]
fn pushing_a_colour_hands_over_element_and_components() {
    let (token, call) = push_style_color(
        &PlotColorElement::Line,
        1.0f32.to_bits(),
        0.5f32.to_bits(),
        0.25f32.to_bits(),
        0.2f32.to_bits(),
    );
    assert!(!token.was_popped());
    assert_eq!(
        call,
        PlotCall::PushStyleColor {
            element: 0,
            color: ImVec4 {
                x: 0x3f80_0000,
                y: 0x3f00_0000,
                z: 0x3e80_0000,
                w: 0.2f32.to_bits(),
            },
        }
    );
    let (_, other) = push_style_color(&PlotColorElement::Crosshairs, 0, 0, 0, 0);
    assert_eq!(
        other,
        PlotCall::PushStyleColor { element: 20, color: ImVec4 { x: 0, y: 0, z: 0, w: 0 } }
    );
}

#[test]
fn popping_a_colour_takes_one_off_and_spends_the_token() {
    let (token, _) = push_style_color(&PlotColorElement::Fill, 0, 0, 0, 0);
    let (spent, call) = token.pop();
    assert!(spent.was_popped());
    assert_eq!(call, PlotCall::PopStyleColor { count: 1 });
}

#[test]
fn pushing_a_number_hands_over_variable_and_value() {
    let (token, call) = push_style_var_f32(&StyleVar::LineWeight, 11.0f32.to_bits());
    assert!(!token.was_popped());
    assert_eq!(call, PlotCall::PushStyleVarFloat { variable: 0, value: 0x4130_0000 });
}

#[test]
fn pushing_a_whole_number_hands_over_variable_and_value() {
    let (token, call) = push_style_var_i32(&StyleVar::Marker, Marker::Cross.code());
    assert!(!token.was_popped());
    assert_eq!(call, PlotCall::PushStyleVarInt { variable: 1, number: 7 });
    let (_, negative) = push_style_var_i32(&StyleVar::Marker, Marker::NoMarker.code());
    assert_eq!(negative, PlotCall::PushStyleVarInt { variable: 1, number: -1 });
}

#[test]
fn pushing_a_pair_hands_over_variable_and_value() {
    let pair = ImVec2 { x: 2.0f32.to_bits(), y: 3.0f32.to_bits() };
    let (token, call) = push_style_var_imvec2(&StyleVar::PlotPadding, pair);
    assert!(!token.was_popped());
    assert_eq!(call, PlotCall::PushStyleVarVec2 { variable: 17, pair });
}

#[test]
fn popping_a_variable_takes_one_off_and_spends_the_token() {
    let (token, _) = push_style_var_f32(&StyleVar::FillAlpha, 0);
    let (spent, call) = token.pop();
    assert!(spent.was_popped());
    assert_eq!(call, PlotCall::PopStyleVar { count: 1 });
}
