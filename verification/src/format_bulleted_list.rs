//! Bulleted lists.

use vstd::prelude::*;
use vstd::string::*;
use crate::text::join;
use crate::text::lines;
use crate::text::spec_join;
use crate::text::spec_lines;
use crate::text::views;

verus! {

/// The items as a bulleted list, one item to a line; the empty text without items.
pub open spec fn spec_format_bulleted_list(items: Seq<Seq<char>>) -> Seq<char> {
    if items.len() == 0 {
        Seq::empty()
    } else {
        "• "@ + spec_join(items, "\n• "@)
    }
}

/// An item with its second and later lines indented by two spaces. An item of one
/// line stays as it is; an item without a line becomes the empty text.
pub open spec fn spec_indent_item(item: Seq<char>) -> Seq<char> {
    let all = spec_lines(item);
    if all.len() == 0 {
        Seq::empty()
    } else if all.len() == 1 {
        item
    } else {
        all[0] + "\n  "@ + spec_join(all.skip(1), "\n  "@)
    }
}

/// The items as a bulleted list, the second and later lines of an item indented.
pub open spec fn spec_format_bulleted_list_multiline(items: Seq<Seq<char>>) -> Seq<char> {
    spec_format_bulleted_list(items.map_values(|item: Seq<char>| spec_indent_item(item)))
}

/// Format items into a bulleted list with line breaks between elements.
pub fn format_bulleted_list(items: &Vec<String>) -> (text: String)
    ensures
        text@ == spec_format_bulleted_list(views(items@)),
{
    if items.len() == 0 {
        String::new()
    } else {
        String::from_str("• ").concat(join(items, "\n• ").as_str())
    }
}

fn indent_item(item: &str) -> (text: String)
    ensures
        text@ == spec_indent_item(item@),
{
    let mut all = lines(item);
    if all.len() == 0 {
        String::new()
    } else if all.len() == 1 {
        item.to_owned()
    } else {
        let ghost whole = views(all@);
        let first = all.remove(0);
        assert(views(all@) =~= whole.skip(1));
        let mut text = first;
        text.append("\n  ");
        text.append(join(&all, "\n  ").as_str());
        text
    }
}

/// Like [`format_bulleted_list`], except that the second and subsequent lines of
/// multi-line items are indented as well.
pub fn format_bulleted_list_multiline(items: &Vec<String>) -> (text: String)
    ensures
        text@ == spec_format_bulleted_list_multiline(views(items@)),
{
    let mut indented: Vec<String> = Vec::new();
    let ghost wanted = views(items@).map_values(|item: Seq<char>| spec_indent_item(item));
    let mut k: usize = 0;
    while k < items.len()
        invariant
            k <= items@.len(),
            wanted == views(items@).map_values(|item: Seq<char>| spec_indent_item(item)),
            views(indented@) == wanted.take(k as int),
        decreases items@.len() - k,
    {
        let ghost before = views(indented@);
        indented.push(indent_item(items[k].as_str()));
        assert(views(indented@) =~= before.push(spec_indent_item(items@[k as int]@)));
        assert(views(indented@) =~= wanted.take(k + 1));
        k = k + 1;
    }
    assert(wanted.take(k as int) =~= wanted);
    format_bulleted_list(&indented)
}

} // verus!
