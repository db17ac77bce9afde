//! What the export of the record is made of on this side: the names it
//! uses, the markup of its two template helpers and its success message.

use vstd::prelude::*;
use vstd::string::StringExecFns;

verus! {

/// The name under which the template is registered.
pub const TEMPLATE_NAME: &'static str = "resume";

/// The file the template is read from.
pub const TEMPLATE_PATH: &'static str = "templates/resume.tex.hbs";

/// The directory the export is written into.
pub const OUTPUT_DIR: &'static str = "output";

/// The file the export is written to.
pub const OUTPUT_PATH: &'static str = "output/resume.tex";

/// The file the record is stored in.
pub const DATA_PATH: &'static str = "data/resume.json";

/// The label shown for every link.
pub open spec fn link_label() -> Seq<char> {
    "GitHub Repo Link"@
}

/// `text` in bold.
pub open spec fn bold(text: Seq<char>) -> Seq<char> {
    "\\textbf{"@ + text + "}"@
}

/// A link to `url` under the label [`link_label`].
pub open spec fn href(url: Seq<char>) -> Seq<char> {
    "\\href{"@ + url + "}{"@ + link_label() + "}"@
}

/// The message of an export that was written to `path`.
pub open spec fn generated(path: Seq<char>) -> Seq<char> {
    "Generated "@ + path
}

/// The markup that shows `text` in bold.
pub fn bold_markup(text: &str) -> (markup: String)
    ensures
        markup@ == bold(text@),
{
    let mut markup = String::from_str("\\textbf{");
    markup.append(text);
    markup.append("}");
    markup
}

/// The markup of a link to `url`; its visible label is the same for every
/// link.
pub fn href_markup(url: &str) -> (markup: String)
    ensures
        markup@ == href(url@),
{
    let mut markup = String::from_str("\\href{");
    markup.append(url);
    markup.append("}{");
    markup.append("GitHub Repo Link");
    markup.append("}");
    markup
}

/// The message of an export that was written to `path`.
pub fn success_message(path: &str) -> (message: String)
    ensures
        message@ == generated(path@),
{
    let mut message = String::from_str("Generated ");
    message.append(path);
    message
}

} // verus!
