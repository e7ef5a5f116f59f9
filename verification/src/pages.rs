use vstd::prelude::*;
use vstd::string::*;
use crate::fmt::decimal;
use crate::fmt::push_decimal;
use crate::fmt::starts_with;
use crate::fmt::str_eq;

verus! {

/// The animated emoji that a pagination button shows while its page loads.
pub const LOADING_EMOJI_ID: u64 = 1110725977069326346;

/// What a button shows.
pub enum ButtonFace {
    Label(String),
    Emoji { id: u64, animated: bool },
}

/// A secondary-style button of a message.
pub struct Button {
    pub custom_id: String,
    pub face: ButtonFace,
    pub disabled: bool,
}

/// What a button shows, as values.
pub enum FaceSpec {
    Label(Seq<char>),
    Emoji { id: u64, animated: bool },
}

/// A button, as values.
pub struct ButtonSpec {
    pub custom_id: Seq<char>,
    pub face: FaceSpec,
    pub disabled: bool,
}

impl View for ButtonFace {
    type V = FaceSpec;

    open spec fn view(&self) -> FaceSpec {
        match self {
            ButtonFace::Label(s) => FaceSpec::Label(s@),
            ButtonFace::Emoji { id, animated } => FaceSpec::Emoji { id: *id, animated: *animated },
        }
    }
}

impl View for Button {
    type V = ButtonSpec;

    open spec fn view(&self) -> ButtonSpec {
        ButtonSpec { custom_id: self.custom_id@, face: self.face@, disabled: self.disabled }
    }
}

pub open spec fn loading_face() -> FaceSpec {
    FaceSpec::Emoji { id: LOADING_EMOJI_ID, animated: true }
}

/// The three buttons under a paged message: back, the page counter, forward. The button
/// that was pressed shows the loading emoji while `loading`; back is off on the first page,
/// forward on the last, both while `loading`.
pub open spec fn pagination_buttons_spec(page: nat, pages: nat, loading: bool, event: Seq<char>) -> Seq<ButtonSpec> {
    seq![
        ButtonSpec {
            custom_id: "pg_prev"@,
            face: if event == "pg_prev"@ && loading { loading_face() } else { FaceSpec::Label("<"@) },
            disabled: loading || page == 0,
        },
        ButtonSpec {
            custom_id: "pg_disp"@,
            face: FaceSpec::Label(decimal(page + 1) + "/"@ + decimal(pages)),
            disabled: true,
        },
        ButtonSpec {
            custom_id: "pg_next"@,
            face: if event == "pg_next"@ && loading { loading_face() } else { FaceSpec::Label(">"@) },
            disabled: loading || page + 1 == pages,
        },
    ]
}

/// The buttons of page `page` of `pages`, as [`pagination_buttons_spec`] says.
pub fn pagination_buttons(page: u64, pages: u64, loading: bool, event: &str) -> (r: Vec<Button>)
    requires page < u64::MAX,
    ensures r@.map_values(|b: Button| b@) == pagination_buttons_spec(page as nat, pages as nat, loading, event@),
{
    let prev_face = if str_eq(event, "pg_prev") && loading {
        ButtonFace::Emoji { id: LOADING_EMOJI_ID, animated: true }
    } else {
        ButtonFace::Label(String::from_str("<"))
    };
    let mut label = String::new();
    push_decimal(&mut label, page + 1);
    label.append("/");
    push_decimal(&mut label, pages);
    let next_face = if str_eq(event, "pg_next") && loading {
        ButtonFace::Emoji { id: LOADING_EMOJI_ID, animated: true }
    } else {
        ButtonFace::Label(String::from_str(">"))
    };
    let mut r: Vec<Button> = Vec::new();
    r.push(Button { custom_id: String::from_str("pg_prev"), face: prev_face, disabled: loading || page == 0 });
    r.push(Button { custom_id: String::from_str("pg_disp"), face: ButtonFace::Label(label), disabled: true });
    r.push(Button { custom_id: String::from_str("pg_next"), face: next_face, disabled: loading || page + 1 == pages });
    assert(label@ =~= decimal((page + 1) as nat) + "/"@ + decimal(pages as nat));
    assert(r@.map_values(|b: Button| b@) =~= pagination_buttons_spec(page as nat, pages as nat, loading, event@));
    r
}

/// The page shown after a press of the button `custom_id` under the top apps list.
pub open spec fn top_apps_step_spec(page: int, custom_id: Seq<char>) -> int {
    if custom_id == "pg_prev"@ {
        page - 1
    } else if custom_id == "pg_next"@ {
        page + 1
    } else {
        page
    }
}

/// The page shown after a press of the button `custom_id` under the top apps list.
pub fn top_apps_step(page: u64, custom_id: &str) -> (r: u64)
    requires
        custom_id@ == "pg_prev"@ ==> page > 0,
        custom_id@ == "pg_next"@ ==> page < u64::MAX,
    ensures r == top_apps_step_spec(page as int, custom_id@),
{
    if str_eq(custom_id, "pg_prev") {
        page - 1
    } else if str_eq(custom_id, "pg_next") {
        page + 1
    } else {
        page
    }
}

/// The page shown after a press of the button `custom_id` under the list of unlinked
/// members: forward and back wrap around `pages`; any other button leaves it (`None`).
pub open spec fn missing_step_spec(page: int, pages: int, custom_id: Seq<char>, prev_id: Seq<char>, next_id: Seq<char>) -> Option<int> {
    if custom_id == next_id {
        Some(if page + 1 >= pages { 0 } else { page + 1 })
    } else if custom_id == prev_id {
        Some(if page == 0 { pages - 1 } else { page - 1 })
    } else {
        None
    }
}

/// The page shown after a press of the button `custom_id` under the list of unlinked members.
pub fn missing_step(page: u64, pages: u64, custom_id: &str, prev_id: &str, next_id: &str) -> (r: Option<u64>)
    requires
        page < u64::MAX,
        custom_id@ == prev_id@ && custom_id@ != next_id@ && page == 0 ==> pages > 0,
    ensures
        match missing_step_spec(page as int, pages as int, custom_id@, prev_id@, next_id@) {
            Some(p) => r == Some(p as u64),
            None => r is None,
        },
{
    if str_eq(custom_id, next_id) {
        let mut p = page + 1;
        if p >= pages {
            p = 0;
        }
        Some(p)
    } else if str_eq(custom_id, prev_id) {
        Some(if page == 0 { pages - 1 } else { page - 1 })
    } else {
        None
    }
}

/// The ids of the back and forward buttons of the interaction `ctx_id`: `{ctx_id}_prev` and
/// `{ctx_id}_next`.
pub fn missing_button_ids(ctx_id: u64) -> (r: (String, String))
    ensures
        r.0@ == decimal(ctx_id as nat) + "_prev"@,
        r.1@ == decimal(ctx_id as nat) + "_next"@,
{
    let mut prev = String::new();
    push_decimal(&mut prev, ctx_id);
    prev.append("_prev");
    let mut next = String::new();
    push_decimal(&mut next, ctx_id);
    next.append("_next");
    assert(prev@ =~= decimal(ctx_id as nat) + "_prev"@);
    assert(next@ =~= decimal(ctx_id as nat) + "_next"@);
    (prev, next)
}

/// Whether the button `custom_id` belongs to the interaction `ctx_id`: its id begins with it.
pub fn is_own_button(custom_id: &str, ctx_id: u64) -> (r: bool)
    ensures
        r == (decimal(ctx_id as nat).len() <= custom_id@.len()
            && custom_id@.subrange(0, decimal(ctx_id as nat).len() as int) == decimal(ctx_id as nat)),
{
    let mut id = String::new();
    push_decimal(&mut id, ctx_id);
    assert(id@ =~= decimal(ctx_id as nat));
    starts_with(custom_id, id.as_str())
}

/// The file name of the image of page `page`: `page_{page}.png`.
pub fn page_file_name(page: u64) -> (r: String)
    ensures r@ == "page_"@ + decimal(page as nat) + ".png"@,
{
    let mut s = String::from_str("page_");
    push_decimal(&mut s, page);
    s.append(".png");
    assert(s@ =~= "page_"@ + decimal(page as nat) + ".png"@);
    s
}

/// The `attachments` field of a message edit.
pub enum AttachmentsField {
    /// Not set by the edit.
    Unset,
    /// The ids of the attachments that the message keeps.
    Array(Vec<u64>),
    /// Set to something other than a list.
    NotArray,
}

/// An edit of a message, as far as its attachments go.
pub struct EditMessage {
    pub attachments: AttachmentsField,
}

/// Drops every attachment that the edited message keeps.
pub fn remove_attachments(b: &mut EditMessage)
    requires old(b).attachments is Array,
    ensures final(b).attachments matches AttachmentsField::Array(v) && v@.len() == 0,
{
    match &mut b.attachments {
        AttachmentsField::Array(v) => {
            v.clear();
        },
        _ => {},
    }
}

} // verus!
