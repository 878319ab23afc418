//! Editor state that the DAW project stores but the audio thread never reads.
use vstd::prelude::*;

verus! {

/// Page of the plugin UI that the editor shows.
#[derive(Debug, Clone, Copy, PartialEq, Eq, Structural)]
pub enum EditorPage {
    Controls,
    About,
}

/// Name under which a page is stored in the project.
pub open spec fn spec_editor_page_name(page: EditorPage) -> Seq<char> {
    match page {
        EditorPage::Controls => "controls"@,
        EditorPage::About => "about"@,
    }
}

/// The page stored under a name, if any.
pub open spec fn spec_editor_page_from_name(name: Seq<char>) -> Option<EditorPage> {
    if name == "controls"@ {
        Some(EditorPage::Controls)
    } else if name == "about"@ {
        Some(EditorPage::About)
    } else {
        None
    }
}

/// Whether two strings hold the same characters.
fn same_text(a: &str, b: &str) -> (r: bool)
    ensures
        r == (a@ == b@),
{
    a.to_owned() == b.to_owned()
}

impl EditorPage {
    /// Name under which the page is stored: `controls` or `about`.
    pub fn as_str(self) -> (name: &'static str)
        ensures
            name@ == spec_editor_page_name(self),
    {
        match self {
            EditorPage::Controls => "controls",
            EditorPage::About => "about",
        }
    }

    /// The page stored under `value`, or `None` for any other text.
    pub fn from_str(value: &str) -> (page: Option<Self>)
        ensures
            page == spec_editor_page_from_name(value@),
    {
        if same_text(value, "controls") {
            Some(EditorPage::Controls)
        } else if same_text(value, "about") {
            Some(EditorPage::About)
        } else {
            None
        }
    }
}

impl Default for EditorPage {
    /// The editor opens on the controls page.
    fn default() -> (page: Self)
        ensures
            page == EditorPage::Controls,
    {
        EditorPage::Controls
    }
}

/// Law: reading back the name of a page gives that page.
pub proof fn lemma_editor_page_name_round_trip(page: EditorPage)
    ensures
        spec_editor_page_from_name(spec_editor_page_name(page)) == Some(page),
{
    reveal_strlit("controls");
    reveal_strlit("about");
    if page == EditorPage::About {
        assert("about"@ != "controls"@) by {
            assert("about"@[0] != "controls"@[0]);
        }
    }
}

/// Law: a name that reads as a page is exactly that page's name.
pub proof fn lemma_editor_page_name_unique(name: Seq<char>)
    ensures
        spec_editor_page_from_name(name) matches Some(page) ==> spec_editor_page_name(page)
            == name,
{
}

/// Non-realtime state that the DAW project stores.
#[derive(Debug, Clone, Copy)]
pub struct ProjectState {
    pub editor_page: EditorPage,
}

impl Default for ProjectState {
    /// A new project opens the editor on the controls page.
    fn default() -> (state: Self)
        ensures
            state.editor_page == EditorPage::Controls,
    {
        ProjectState { editor_page: EditorPage::Controls }
    }
}

} // verus!
