use vstd::prelude::*;

verus! {

#[verifier::external_type_specification]
#[verifier::external_body]
pub struct ExResponse(eframe::egui::Response);

#[verifier::external_type_specification]
#[verifier::external_body]
pub struct ExPos2(eframe::egui::Pos2);

/// Relies on egui's `Response::clicked`: whether the widget was clicked with
/// the primary button in this frame.
#[verifier::external_body]
fn response_clicked(response: &eframe::egui::Response) -> bool {
    response.clicked()
}

/// Relies on egui's `Response::interact_pointer_pos`: where the pointer was
/// when the widget was clicked or dragged; none if it is not interacted with.
#[verifier::external_body]
fn response_pointer_pos(response: &eframe::egui::Response) -> Option<eframe::egui::Pos2> {
    response.interact_pointer_pos()
}

/// Keeps the extension traits implemented by the renderer's types alone.
pub trait Sealed {}

impl Sealed for eframe::egui::Response {}

/// Where a widget was clicked: `pos` if it was, none otherwise.
pub fn click_position(clicked: bool, pos: Option<eframe::egui::Pos2>) -> (r: Option<eframe::egui::Pos2>)
    ensures
        r == (if clicked {
            pos
        } else {
            None
        }),
{
    if clicked {
        pos
    } else {
        None
    }
}

/// Extends a `Response`.
pub trait ResponseExt: Sealed {
    /// The position the element was clicked at; none if it was not clicked.
    fn clicked_with_pos(&self) -> Option<eframe::egui::Pos2>;
}

impl ResponseExt for eframe::egui::Response {
    fn clicked_with_pos(&self) -> Option<eframe::egui::Pos2> {
        click_position(response_clicked(self), response_pointer_pos(self))
    }
}

} // verus!
