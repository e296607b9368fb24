use vstd::prelude::*;
use crate::menu::MenuChoice;
use crate::render::{spec_colorize, colorize_text, AnsiColor};
use crate::strutil::strings_view;

verus! {

/// What the backend reports about one model, reduced to plain values: its
/// parameter count and size label as display text, and the capability names
/// it declares.
#[derive(Debug)]
pub struct ModelInfoData {
    pub parameter_count: Option<String>,
    pub size_label: Option<String>,
    pub capabilities: Vec<String>,
}

/// The parameters line: the count, the size label in parentheses behind it,
/// either alone, or a stock line when the backend reported neither.
pub open spec fn spec_parameters_text(
    parameter_count: Option<Seq<char>>,
    size_label: Option<Seq<char>>,
) -> Seq<char> {
    match (parameter_count, size_label) {
        (Some(p), Some(l)) => p + " ("@ + l + ")"@,
        (Some(p), None) => p,
        (None, Some(l)) => l,
        (None, None) => "Not available"@,
    }
}

/// One capability row.
pub open spec fn spec_capability_rows(caps: Seq<Seq<char>>) -> Seq<char>
    decreases caps.len(),
{
    if caps.len() == 0 {
        Seq::empty()
    } else {
        spec_capability_rows(caps.drop_last()) + "- "@ + caps.last() + "\n"@
    }
}

/// The model-information text: the model's name and parameters, a blank
/// separator, and its capabilities under a colored heading; or a stock line
/// when the information could not be retrieved.
pub open spec fn spec_model_info_text(name: Seq<char>, info: Option<ModelInfoData>) -> Seq<char> {
    match info {
        None => "Unable to retrieve model info"@,
        Some(d) => "Model Name: "@ + name + "\nParameters: "@ + spec_parameters_text(
            match d.parameter_count {
                Some(p) => Some(p@),
                None => None,
            },
            match d.size_label {
                Some(l) => Some(l@),
                None => None,
            },
        ) + "\n"@ + "\n \n"@ + spec_colorize("Capabilities\n"@, AnsiColor::BrightBlue)
            + spec_capability_rows(strings_view(d.capabilities@)),
    }
}

/// Renders what is known about a model; the surrounding loop boxes it.
pub fn render_model_info(model_name: &str, info: &Option<ModelInfoData>) -> (r: String)
    ensures
        r@ == spec_model_info_text(model_name@, *info),
{
    match info {
        None => String::from_str("Unable to retrieve model info"),
        Some(d) => {
            let mut out = String::from_str("Model Name: ");
            out.append(model_name);
            out.append("\nParameters: ");
            match (&d.parameter_count, &d.size_label) {
                (Some(p), Some(l)) => {
                    out.append(p.as_str());
                    out.append(" (");
                    out.append(l.as_str());
                    out.append(")");
                },
                (Some(p), None) => out.append(p.as_str()),
                (None, Some(l)) => out.append(l.as_str()),
                (None, None) => out.append("Not available"),
            }
            out.append("\n");
            out.append("\n \n");
            let heading = colorize_text("Capabilities\n", AnsiColor::BrightBlue);
            out.append(heading.as_str());
            let ghost prefix = out@;
            let n = d.capabilities.len();
            let mut i: usize = 0;
            while i < n
                invariant
                    n == d.capabilities@.len(),
                    0 <= i <= n,
                    out@ == prefix + spec_capability_rows(
                        strings_view(d.capabilities@).subrange(0, i as int),
                    ),
                decreases n - i,
            {
                proof {
                    assert(strings_view(d.capabilities@).subrange(0, i + 1).drop_last()
                        =~= strings_view(d.capabilities@).subrange(0, i as int));
                }
                out.append("- ");
                out.append(d.capabilities[i].as_str());
                out.append("\n");
                proof {
                    assert(out@ =~= prefix + spec_capability_rows(
                        strings_view(d.capabilities@).subrange(0, i + 1),
                    ));
                }
                i = i + 1;
            }
            proof {
                assert(strings_view(d.capabilities@).subrange(0, n as int) =~= strings_view(
                    d.capabilities@,
                ));
                assert(out@ =~= spec_model_info_text(model_name@, *info));
            }
            out
        },
    }
}

/// The picker entries for choosing a model: one entry per local model, in
/// order, and a final Other entry for typing a name.
pub fn model_menu_choices(models: &Vec<String>) -> (r: Vec<MenuChoice>)
    ensures
        r@.len() == models@.len() + 1,
        forall|i: int|
            0 <= i < models@.len() ==> (#[trigger] r@[i]).name@ == models@[i]@ && r@[i].shortcut
                == '#',
        r@.last().name@ == "Other"@,
        r@.last().shortcut == '#',
{
    let mut out: Vec<MenuChoice> = Vec::new();
    let n = models.len();
    let mut i: usize = 0;
    while i < n
        invariant
            n == models@.len(),
            0 <= i <= n,
            out@.len() == i,
            forall|k: int|
                0 <= k < i ==> (#[trigger] out@[k]).name@ == models@[k]@ && out@[k].shortcut
                    == '#',
        decreases n - i,
    {
        out.push(MenuChoice { name: models[i].clone(), shortcut: '#' });
        i = i + 1;
    }
    out.push(MenuChoice { name: String::from_str("Other"), shortcut: '#' });
    out
}

/// The model a picker selection names: the chosen local model, or, when the
/// final Other entry was chosen, the name the user typed.
pub fn resolve_model_selection(models: &Vec<String>, selected: u8, typed: String) -> (r: String)
    requires
        selected as int <= models@.len(),
    ensures
        (selected as int) < models@.len() ==> r@ == models@[selected as int]@,
        selected as int == models@.len() ==> r == typed,
{
    if (selected as usize) < models.len() {
        models[selected as usize].clone()
    } else {
        typed
    }
}

} // verus!
