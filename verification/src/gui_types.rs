//! Registry of the GUI component kinds and the names by which they are printed and found.
use vstd::prelude::*;

verus! {

/// The kinds of GUI components known to the toolkit.
#[derive(Clone, Copy, Debug, PartialEq, Eq, Structural)]
pub enum GuiType {
    Button,
    Checkbox,
    Cursor,
    Image,
    Label,
    ListBox,
    OptionGroup,
    Scene,
    Stage,
    Shape,
    TextArea,
    TextField,
    Text,
    Timeline,
    /// Any component kind that is not registered (rows, toolbars, plain layers).
    Other,
}

/// The printed name of a component kind; `"Unknown"` for unregistered kinds.
pub open spec fn display_name(t: GuiType) -> Seq<char> {
    match t {
        GuiType::Button => "Button"@,
        GuiType::Checkbox => "Checkbox"@,
        GuiType::Cursor => "Cursor"@,
        GuiType::Image => "Image"@,
        GuiType::Label => "Label"@,
        GuiType::ListBox => "ListBox"@,
        GuiType::OptionGroup => "OptionGroup"@,
        GuiType::Scene => "Scene"@,
        GuiType::Stage => "Stage"@,
        GuiType::Shape => "Shape"@,
        GuiType::TextArea => "TextArea"@,
        GuiType::TextField => "TextField"@,
        GuiType::Text => "Text"@,
        GuiType::Timeline => "Timeline"@,
        GuiType::Other => "Unknown"@,
    }
}

/// Helper to get the string for a given GUI component
pub fn gui_print_type(type_id: &GuiType) -> (name: &'static str)
    ensures
        name@ == display_name(*type_id),
{
    match type_id {
        GuiType::Button => "Button",
        GuiType::Checkbox => "Checkbox",
        GuiType::Cursor => "Cursor",
        GuiType::Image => "Image",
        GuiType::Label => "Label",
        GuiType::ListBox => "ListBox",
        GuiType::OptionGroup => "OptionGroup",
        GuiType::Scene => "Scene",
        GuiType::Stage => "Stage",
        GuiType::Shape => "Shape",
        GuiType::TextArea => "TextArea",
        GuiType::TextField => "TextField",
        GuiType::Text => "Text",
        GuiType::Timeline => "Timeline",
        GuiType::Other => "Unknown",
    }
}

/// The kinds that respond to user input events.
pub open spec fn is_responder_type(t: GuiType) -> bool {
    match t {
        GuiType::Button | GuiType::Checkbox | GuiType::ListBox | GuiType::OptionGroup
        | GuiType::Scene | GuiType::TextArea | GuiType::TextField | GuiType::Text => true,
        _ => false,
    }
}

/// The kinds that are input fields, which the theme styles as such.
pub open spec fn is_input_type(t: GuiType) -> bool {
    match t {
        GuiType::Checkbox | GuiType::ListBox | GuiType::TextArea | GuiType::TextField
        | GuiType::OptionGroup => true,
        _ => false,
    }
}

/// The kind whose printed name is `name`, if any. `"Unknown"` names no kind.
pub open spec fn kind_named(name: Seq<char>) -> Option<GuiType> {
    if name == "Button"@ {
        Some(GuiType::Button)
    } else if name == "Checkbox"@ {
        Some(GuiType::Checkbox)
    } else if name == "Cursor"@ {
        Some(GuiType::Cursor)
    } else if name == "Image"@ {
        Some(GuiType::Image)
    } else if name == "Label"@ {
        Some(GuiType::Label)
    } else if name == "ListBox"@ {
        Some(GuiType::ListBox)
    } else if name == "OptionGroup"@ {
        Some(GuiType::OptionGroup)
    } else if name == "Scene"@ {
        Some(GuiType::Scene)
    } else if name == "Stage"@ {
        Some(GuiType::Stage)
    } else if name == "Shape"@ {
        Some(GuiType::Shape)
    } else if name == "TextArea"@ {
        Some(GuiType::TextArea)
    } else if name == "TextField"@ {
        Some(GuiType::TextField)
    } else if name == "Text"@ {
        Some(GuiType::Text)
    } else if name == "Timeline"@ {
        Some(GuiType::Timeline)
    } else {
        None
    }
}

/// Whether objects of this kind respond to user input events
pub fn is_responder(type_id: &GuiType) -> (res: bool)
    ensures
        res == is_responder_type(*type_id),
{
    match type_id {
        GuiType::Button | GuiType::Checkbox | GuiType::ListBox | GuiType::OptionGroup
        | GuiType::Scene | GuiType::TextArea | GuiType::TextField | GuiType::Text => true,
        _ => false,
    }
}

/// Whether objects of this kind are input fields
pub fn is_input(type_id: &GuiType) -> (res: bool)
    ensures
        res == is_input_type(*type_id),
{
    match type_id {
        GuiType::Checkbox | GuiType::ListBox | GuiType::TextArea | GuiType::TextField
        | GuiType::OptionGroup => true,
        _ => false,
    }
}

/// The responder kinds, in registration order
pub fn gui_responders() -> (res: Vec<GuiType>)
    ensures
        res@ == seq![
            GuiType::Button,
            GuiType::Checkbox,
            GuiType::ListBox,
            GuiType::OptionGroup,
            GuiType::Scene,
            GuiType::TextArea,
            GuiType::TextField,
            GuiType::Text,
        ],
        forall|t: GuiType| res@.contains(t) <==> is_responder_type(t),
{
    let res = vec![
        GuiType::Button,
        GuiType::Checkbox,
        GuiType::ListBox,
        GuiType::OptionGroup,
        GuiType::Scene,
        GuiType::TextArea,
        GuiType::TextField,
        GuiType::Text,
    ];
    assert forall|t: GuiType| res@.contains(t) <==> is_responder_type(t) by {
        if is_responder_type(t) {
            match t {
                GuiType::Button => assert(res@[0] == t),
                GuiType::Checkbox => assert(res@[1] == t),
                GuiType::ListBox => assert(res@[2] == t),
                GuiType::OptionGroup => assert(res@[3] == t),
                GuiType::Scene => assert(res@[4] == t),
                GuiType::TextArea => assert(res@[5] == t),
                GuiType::TextField => assert(res@[6] == t),
                GuiType::Text => assert(res@[7] == t),
                _ => {},
            }
        }
    }
    res
}

/// The input field kinds, in registration order
pub fn gui_inputs() -> (res: Vec<GuiType>)
    ensures
        res@ == seq![
            GuiType::Checkbox,
            GuiType::ListBox,
            GuiType::TextArea,
            GuiType::TextField,
            GuiType::OptionGroup,
        ],
        forall|t: GuiType| res@.contains(t) <==> is_input_type(t),
{
    let res = vec![
        GuiType::Checkbox,
        GuiType::ListBox,
        GuiType::TextArea,
        GuiType::TextField,
        GuiType::OptionGroup,
    ];
    assert forall|t: GuiType| res@.contains(t) <==> is_input_type(t) by {
        if is_input_type(t) {
            match t {
                GuiType::Checkbox => assert(res@[0] == t),
                GuiType::ListBox => assert(res@[1] == t),
                GuiType::TextArea => assert(res@[2] == t),
                GuiType::TextField => assert(res@[3] == t),
                GuiType::OptionGroup => assert(res@[4] == t),
                _ => {},
            }
        }
    }
    res
}

/// Helper to look up a GUI component kind by its printed name
pub fn gui_type_for_name(name: &str) -> (res: Option<GuiType>)
    ensures
        res == kind_named(name@),
{
    let s = name.to_owned();
    if s == "Button".to_owned() {
        Some(GuiType::Button)
    } else if s == "Checkbox".to_owned() {
        Some(GuiType::Checkbox)
    } else if s == "Cursor".to_owned() {
        Some(GuiType::Cursor)
    } else if s == "Image".to_owned() {
        Some(GuiType::Image)
    } else if s == "Label".to_owned() {
        Some(GuiType::Label)
    } else if s == "ListBox".to_owned() {
        Some(GuiType::ListBox)
    } else if s == "OptionGroup".to_owned() {
        Some(GuiType::OptionGroup)
    } else if s == "Scene".to_owned() {
        Some(GuiType::Scene)
    } else if s == "Stage".to_owned() {
        Some(GuiType::Stage)
    } else if s == "Shape".to_owned() {
        Some(GuiType::Shape)
    } else if s == "TextArea".to_owned() {
        Some(GuiType::TextArea)
    } else if s == "TextField".to_owned() {
        Some(GuiType::TextField)
    } else if s == "Text".to_owned() {
        Some(GuiType::Text)
    } else if s == "Timeline".to_owned() {
        Some(GuiType::Timeline)
    } else {
        None
    }
}

/// Every input field kind is also a responder kind.
pub proof fn lemma_inputs_are_responders(t: GuiType)
    ensures
        is_input_type(t) ==> is_responder_type(t),
{
}

/// The name-to-kind table and the kind-to-name table agree: looking up the printed name of
/// a registered kind finds that kind, and a name that finds a kind is that kind's name.
pub proof fn lemma_names_round_trip(t: GuiType, name: Seq<char>)
    ensures
        t != GuiType::Other ==> kind_named(display_name(t)) == Some(t),
        kind_named(display_name(GuiType::Other)) is None,
        kind_named(name) matches Some(k) ==> display_name(k) == name,
{
    reveal_strlit("Button");
    assert("Button"@.len() == 6 && "Button"@[0] == 'B' && "Button"@[1] == 'u');
    reveal_strlit("Checkbox");
    assert("Checkbox"@.len() == 8 && "Checkbox"@[0] == 'C' && "Checkbox"@[1] == 'h');
    reveal_strlit("Cursor");
    assert("Cursor"@.len() == 6 && "Cursor"@[0] == 'C' && "Cursor"@[1] == 'u');
    reveal_strlit("Image");
    assert("Image"@.len() == 5 && "Image"@[0] == 'I' && "Image"@[1] == 'm');
    reveal_strlit("Label");
    assert("Label"@.len() == 5 && "Label"@[0] == 'L' && "Label"@[1] == 'a');
    reveal_strlit("ListBox");
    assert("ListBox"@.len() == 7 && "ListBox"@[0] == 'L' && "ListBox"@[1] == 'i');
    reveal_strlit("OptionGroup");
    assert("OptionGroup"@.len() == 11 && "OptionGroup"@[0] == 'O' && "OptionGroup"@[1] == 'p');
    reveal_strlit("Scene");
    assert("Scene"@.len() == 5 && "Scene"@[0] == 'S' && "Scene"@[1] == 'c');
    reveal_strlit("Stage");
    assert("Stage"@.len() == 5 && "Stage"@[0] == 'S' && "Stage"@[1] == 't');
    reveal_strlit("Shape");
    assert("Shape"@.len() == 5 && "Shape"@[0] == 'S' && "Shape"@[1] == 'h');
    reveal_strlit("TextArea");
    assert("TextArea"@.len() == 8 && "TextArea"@[0] == 'T' && "TextArea"@[1] == 'e');
    reveal_strlit("TextField");
    assert("TextField"@.len() == 9 && "TextField"@[0] == 'T' && "TextField"@[1] == 'e');
    reveal_strlit("Text");
    assert("Text"@.len() == 4 && "Text"@[0] == 'T' && "Text"@[1] == 'e');
    reveal_strlit("Timeline");
    assert("Timeline"@.len() == 8 && "Timeline"@[0] == 'T' && "Timeline"@[1] == 'i');
    reveal_strlit("Unknown");
    assert("Unknown"@.len() == 7 && "Unknown"@[0] == 'U' && "Unknown"@[1] == 'n');
}

} // verus!
