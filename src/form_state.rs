//! Hidden form fields that carry query parameters through a form submission.

use vstd::prelude::*;
use vstd::string::*;

use crate::escape::{attribute_safe, escape_spec, html_escape, lemma_escape_is_attribute_safe};

verus! {

/// The text of a present optional string, or `None`.
pub open spec fn opt_view(v: Option<&String>) -> Option<Seq<char>> {
    match v {
        Some(s) => Some(s@),
        None => None,
    }
}

/// The text of an optional query field.
pub open spec fn field_view(v: Option<String>) -> Option<Seq<char>> {
    match v {
        Some(s) => Some(s@),
        None => None,
    }
}

/// One hidden input, with its name and value escaped.
pub open spec fn input_markup(name: Seq<char>, value: Seq<char>) -> Seq<char> {
    "<input name=\""@ + escape_spec(name) + "\" type=\"hidden\" value=\""@ + escape_spec(value)
        + "\" />"@
}

/// A hidden input for a present value; nothing for an absent one.
pub open spec fn hidden_input_spec(name: Seq<char>, value: Option<Seq<char>>) -> Seq<char> {
    match value {
        Some(v) => input_markup(name, v),
        None => Seq::empty(),
    }
}

/// One line of a form-state fragment: the field's input (if any) and a line break.
pub open spec fn state_line(name: Seq<char>, value: Option<Seq<char>>) -> Seq<char> {
    hidden_input_spec(name, value) + "\n"@
}

/// An absent field contributes no markup; a present one contributes exactly one
/// hidden input with that name, whose value is the escaped value and cannot
/// break out of its attribute.
pub proof fn lemma_form_field(name: Seq<char>, value: Option<Seq<char>>)
    ensures
        value is None ==> hidden_input_spec(name, value) == Seq::<char>::empty(),
        value is None ==> state_line(name, value) == "\n"@,
        value matches Some(v) ==> hidden_input_spec(name, value) == input_markup(name, v),
        value matches Some(v) ==> attribute_safe(escape_spec(v)),
        attribute_safe(escape_spec(name)),
{
    lemma_escape_is_attribute_safe(name);
    if let Some(v) = value {
        lemma_escape_is_attribute_safe(v);
    } else {
        assert(state_line(name, value) =~= "\n"@);
    }
}

/// Renders a hidden input named `name` holding `value`, or the empty string
/// when `value` is absent. Both the name and the value are escaped.
pub fn hidden_input(name: &str, value: Option<&String>) -> (r: String)
    ensures
        r@ == hidden_input_spec(name@, opt_view(value)),
{
    match value {
        Some(v) => {
            let mut out = String::new();
            out.append("<input name=\"");
            let escaped_name = html_escape(name);
            out.append(escaped_name.as_str());
            out.append("\" type=\"hidden\" value=\"");
            let escaped_value = html_escape(v.as_str());
            out.append(escaped_value.as_str());
            out.append("\" />");
            out
        },
        None => String::new(),
    }
}

/// The hidden `redirect_to` input, or the empty string when absent.
pub fn redirect_to(target: Option<&String>) -> (r: String)
    ensures
        r@ == hidden_input_spec("redirect_to"@, opt_view(target)),
{
    hidden_input("redirect_to", target)
}

/// Appends the line for one field to a fragment under construction.
pub(crate) fn push_state_line(out: &mut String, name: &str, value: Option<&String>)
    ensures
        final(out)@ == old(out)@ + state_line(name@, opt_view(value)),
{
    let input = hidden_input(name, value);
    out.append(input.as_str());
    out.append("\n");
}

} // verus!
