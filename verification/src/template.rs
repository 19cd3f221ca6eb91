use crate::engine::{
    all_render, decode_list, default_metadata, encode_list, json_list, latex_text,
    list_elements, list_json, list_metadata, render, render_split, split_latex_text, Element,
    ElementList, Metadata, MetadataView,
};
use crate::json::{
    items, json_items, json_literal, json_member, json_parse, json_text, literal, member,
    member_text, parse, text_copy, text_member,
};
use crate::text::{indent_nested, nested};
use serde_json::Value;
use vstd::prelude::*;

verus! {

/// A document template: who it is by and what it is for, and the elements that
/// make up its body.
#[derive(Debug)]
pub struct Template {
    name: String,
    author: String,
    license: String,
    description: String,
    element_list: ElementList,
}

/// What a template holds: its four texts, and the metadata and the elements of
/// its list.
pub struct TemplateView {
    pub name: Seq<char>,
    pub author: Seq<char>,
    pub license: Seq<char>,
    pub description: Seq<char>,
    pub metadata: MetadataView,
    pub elements: Seq<Element>,
}

impl TemplateView {
    /// This template with one more element at the end of its list.
    pub open spec fn push(self, element: Element) -> TemplateView {
        TemplateView { elements: self.elements.push(element), ..self }
    }

    /// This template with more elements at the end of its list, in their order.
    pub open spec fn extend(self, added: Seq<Element>) -> TemplateView {
        TemplateView { elements: self.elements + added, ..self }
    }

    /// This template after each element of `batch` was pushed, one after the
    /// other from the first to the last.
    pub open spec fn push_each(self, batch: Seq<Element>) -> TemplateView
        decreases batch.len(),
    {
        if batch.len() == 0 {
            self
        } else {
            self.push_each(batch.drop_last()).push(batch.last())
        }
    }

    /// This template with another list in the place of its own.
    pub open spec fn replace_list(
        self,
        metadata: MetadataView,
        elements: Seq<Element>,
    ) -> TemplateView {
        TemplateView { metadata, elements, ..self }
    }

    /// This template with its list started over from `metadata`.
    pub open spec fn restart(self, metadata: MetadataView) -> TemplateView {
        self.replace_list(metadata, Seq::empty())
    }
}

impl View for Template {
    type V = TemplateView;

    closed spec fn view(&self) -> TemplateView {
        TemplateView {
            name: self.name@,
            author: self.author@,
            license: self.license@,
            description: self.description@,
            metadata: list_metadata(self.element_list),
            elements: list_elements(self.element_list),
        }
    }
}

impl Clone for Template {
    fn clone(&self) -> (copy: Self)
        ensures
            copy@ == self@,
    {
        Template {
            name: self.name.clone(),
            author: self.author.clone(),
            license: self.license.clone(),
            description: self.description.clone(),
            element_list: self.element_list.clone(),
        }
    }
}

/// The JSON text of a template: one object, indented by two spaces a level,
/// with the members `name`, `author`, `license`, `description` and
/// `element_list` in this order. The four texts stand as string literals, the
/// list as the engine writes it, moved inwards by one level.
pub open spec fn template_json(template: TemplateView) -> Seq<char> {
    "{\n  \"name\": "@ + json_literal(template.name) + ",\n  \"author\": "@ + json_literal(
        template.author,
    ) + ",\n  \"license\": "@ + json_literal(template.license) + ",\n  \"description\": "@
        + json_literal(template.description) + ",\n  \"element_list\": "@ + nested(
        list_json(template.metadata, template.elements),
    ) + "\n}"@
}

/// The display fragment of a template around its markup: a heading with the
/// name, the author, the license and the description on a line each, then the
/// markup on lines of its own between `<code>` and `</code>`. The texts go in
/// as they are, with nothing escaped. The description line ends in `<h5>`, not
/// `</h5>`: readers of the fragment know it by these bytes.
pub open spec fn html_text(template: TemplateView, markup: Seq<char>) -> Seq<char> {
    "<h2>"@ + template.name + "</h2>\n<h3>By "@ + template.author + "</h3>\n<h4>Under "@
        + template.license + "</h4>\n<h5>"@ + template.description + "<h5>\n<code>\n"@ + markup
        + "\n</code>"@
}

/// Whether `part` stands in `whole` from position `at` on.
pub open spec fn occurs_at(whole: Seq<char>, part: Seq<char>, at: int) -> bool {
    0 <= at && at + part.len() <= whole.len() && whole.subrange(at, at + part.len()) == part
}

/// In the display fragment the name comes first, then "By " and the author,
/// then "Under " and the license, then the description, then the markup
/// between one `<code>` line and one `</code>` line, which ends the fragment.
/// Each part begins behind the end of the part before it.
pub proof fn html_parts_in_order(template: TemplateView, markup: Seq<char>)
    ensures
        ({
            let html = html_text(template, markup);
            let name_at: int = 4;
            let author_at: int = name_at + template.name.len() + 10;
            let license_at: int = author_at + 3 + template.author.len() + 10;
            let description_at: int = license_at + 6 + template.license.len() + 10;
            let code_at: int = description_at + template.description.len() + 5;
            &&& occurs_at(html, template.name, name_at)
            &&& occurs_at(html, "By "@ + template.author, author_at)
            &&& occurs_at(html, "Under "@ + template.license, license_at)
            &&& occurs_at(html, template.description, description_at)
            &&& occurs_at(html, "<code>\n"@ + markup + "\n</code>"@, code_at)
            &&& html.len() == code_at + 7 + markup.len() + 8
        }),
{
    reveal_strlit("<h2>");
    reveal_strlit("</h2>\n<h3>By ");
    reveal_strlit("</h3>\n<h4>Under ");
    reveal_strlit("</h4>\n<h5>");
    reveal_strlit("<h5>\n<code>\n");
    reveal_strlit("\n</code>");
    reveal_strlit("By ");
    reveal_strlit("Under ");
    reveal_strlit("<code>\n");
    let html = html_text(template, markup);
    let name_at: int = 4;
    let author_at: int = name_at + template.name.len() + 10;
    let license_at: int = author_at + 3 + template.author.len() + 10;
    let description_at: int = license_at + 6 + template.license.len() + 10;
    let code_at: int = description_at + template.description.len() + 5;
    assert(html.subrange(name_at, name_at + template.name.len()) =~= template.name);
    assert(html.subrange(author_at, author_at + 3 + template.author.len()) =~= "By "@
        + template.author);
    assert(html.subrange(license_at, license_at + 6 + template.license.len()) =~= "Under "@
        + template.license);
    assert(html.subrange(description_at, description_at + template.description.len())
        =~= template.description);
    assert(html.subrange(code_at, code_at + 7 + markup.len() + 8) =~= "<code>\n"@ + markup
        + "\n</code>"@);
}

/// The list that the member under `key` decodes to, if there is one.
pub open spec fn list_member(document: Value, key: Seq<char>) -> Option<ElementList> {
    match json_member(document, key) {
        Some(found) => json_list(found),
        None => None,
    }
}

/// The template made of five parts, where none of them is missing.
pub open spec fn assembled(
    name: Option<Seq<char>>,
    author: Option<Seq<char>>,
    license: Option<Seq<char>>,
    description: Option<Seq<char>>,
    list: Option<ElementList>,
) -> Option<TemplateView> {
    match (name, author, license, description, list) {
        (Some(name), Some(author), Some(license), Some(description), Some(list)) => Some(
            TemplateView {
                name,
                author,
                license,
                description,
                metadata: list_metadata(list),
                elements: list_elements(list),
            },
        ),
        _ => None,
    }
}

/// The template that a document stands for.
///
/// An object stands for a template if its members `name`, `author`, `license`
/// and `description` are strings and the engine accepts its member
/// `element_list` as a list; its other members do not count. An array stands
/// for one if it holds exactly these five values in this order. Nothing else
/// stands for a template.
pub open spec fn decoded_document(document: Value) -> Option<TemplateView> {
    match json_items(document) {
        Some(values) => if values.len() == 5 {
            assembled(
                json_text(values[0]),
                json_text(values[1]),
                json_text(values[2]),
                json_text(values[3]),
                json_list(values[4]),
            )
        } else {
            None
        },
        None => assembled(
            text_member(document, "name"@),
            text_member(document, "author"@),
            text_member(document, "license"@),
            text_member(document, "description"@),
            list_member(document, "element_list"@),
        ),
    }
}

/// The template that a JSON text stands for, if it stands for one. Where the
/// text names a key twice in one object, the later member counts.
pub open spec fn decoded(content: Seq<char>) -> Option<TemplateView> {
    match json_parse(content) {
        Some(document) => decoded_document(document),
        None => None,
    }
}

/// Pushing several elements at once comes to the same as pushing them one
/// after the other, in the same order.
pub proof fn batch_push_is_repeated_push(template: TemplateView, batch: Seq<Element>)
    ensures
        template.extend(batch) == template.push_each(batch),
    decreases batch.len(),
{
    if batch.len() == 0 {
        assert(template.elements + batch == template.elements);
    } else {
        batch_push_is_repeated_push(template, batch.drop_last());
        assert(template.elements + batch == (template.elements + batch.drop_last()).push(
            batch.last(),
        ));
    }
}

/// Three elements pushed at once give the list that pushing the first, then
/// the second, then the third gives.
pub proof fn batch_of_three_is_three_pushes(
    template: TemplateView,
    first: Element,
    second: Element,
    third: Element,
)
    ensures
        template.extend(seq![first, second, third]) == template.push(first).push(second).push(
            third,
        ),
{
    assert(template.elements + seq![first, second, third] == template.elements.push(first).push(
        second,
    ).push(third));
}

/// Starting the list over from metadata forgets every element pushed before:
/// the template is as if none had been pushed, and its list is empty.
pub proof fn restart_discards_pushed_elements(
    template: TemplateView,
    pushed: Seq<Element>,
    metadata: MetadataView,
)
    ensures
        template.extend(pushed).restart(metadata) == template.restart(metadata),
        template.extend(pushed).restart(metadata).elements.len() == 0,
        template.extend(pushed).restart(metadata).metadata == metadata,
{
}

impl Template {
    /// A template with these four texts and an empty list under the engine's
    /// default metadata.
    pub fn new(name: &str, author: &str, license: &str, desc: &str) -> (template: Self)
        ensures
            template@ == (TemplateView {
                name: name@,
                author: author@,
                license: license@,
                description: desc@,
                metadata: default_metadata(),
                elements: Seq::empty(),
            }),
    {
        Template {
            name: name.to_owned(),
            author: author.to_owned(),
            license: license.to_owned(),
            description: desc.to_owned(),
            element_list: ElementList::default(),
        }
    }

    /// A copy of the name.
    pub fn name(&self) -> (name: String)
        ensures
            name@ == self@.name,
    {
        self.name.clone()
    }

    /// Appends one element at the end of the list. What the element holds is
    /// not looked at.
    pub fn push_element(&mut self, element: Element)
        ensures
            final(self)@ == old(self)@.push(element),
    {
        self.element_list.push(element);
    }

    /// Appends the elements at the end of the list, in the order given.
    pub fn push_elements(&mut self, elements: Vec<Element>)
        ensures
            final(self)@ == old(self)@.extend(elements@),
    {
        let ghost added = elements@;
        for e in it: elements
            invariant
                it.seq() == added,
                self@ == old(self)@.extend(added.take(it.index() as int)),
        {
            proof {
                let i = it.index() as int;
                assert(added.take(i + 1) == added.take(i).push(e));
            }
            self.push_element(e);
        }
        proof {
            assert(added.take(added.len() as int) == added);
        }
    }

    /// Puts `list` in the place of the whole list, metadata and elements.
    pub fn set_list(&mut self, list: ElementList)
        ensures
            final(self)@ == old(self)@.replace_list(list_metadata(list), list_elements(list)),
    {
        self.element_list = list;
    }

    /// Starts the list over from `metadata`: the new list is empty and holds
    /// these six values. Every element pushed before is gone.
    pub fn set_metadata(&mut self, metadata: Metadata)
        ensures
            final(self)@ == old(self)@.restart(metadata@),
    {
        let list = ElementList::new(
            &metadata.author,
            &metadata.date,
            &metadata.title,
            metadata.fontsize,
            &metadata.doc_class,
            metadata.maketitle,
        );
        self.set_list(list)
    }

    /// The template as JSON text.
    pub fn to_json(&self) -> (json: String)
        ensures
            json@ == template_json(self@),
    {
        let list = encode_list(&self.element_list);
        let mut json = String::new();
        json.append("{\n  \"name\": ");
        json.append(literal(&self.name).as_str());
        json.append(",\n  \"author\": ");
        json.append(literal(&self.author).as_str());
        json.append(",\n  \"license\": ");
        json.append(literal(&self.license).as_str());
        json.append(",\n  \"description\": ");
        json.append(literal(&self.description).as_str());
        json.append(",\n  \"element_list\": ");
        json.append(indent_nested(&list).as_str());
        json.append("\n}");
        json
    }

    /// The name together with the JSON text, both as they are at this call.
    pub fn to_backup(&self) -> (backup: (String, String))
        ensures
            backup.0@ == self@.name,
            backup.1@ == template_json(self@),
    {
        let json = self.to_json();
        let name = self.name.clone();
        (name, json)
    }

    /// Whether the engine can turn every element of the list into markup.
    pub fn renders(&self) -> (ok: bool)
        ensures
            ok == all_render(self@.elements),
    {
        self.element_list.renders()
    }

    /// The markup of the whole document, as the engine renders the list.
    pub fn to_latex_string(&self) -> (markup: String)
        requires
            all_render(self@.elements),
        ensures
            markup@ == latex_text(self@.metadata, self@.elements),
    {
        render(&self.element_list)
    }

    /// The display fragment around the markup of the list.
    pub fn to_html(&self) -> (html: String)
        requires
            all_render(self@.elements),
        ensures
            html@ == html_text(self@, latex_text(self@.metadata, self@.elements)),
    {
        let markup = self.to_latex_string();
        let mut html = String::new();
        html.append("<h2>");
        html.append(self.name.as_str());
        html.append("</h2>\n<h3>By ");
        html.append(self.author.as_str());
        html.append("</h3>\n<h4>Under ");
        html.append(self.license.as_str());
        html.append("</h4>\n<h5>");
        html.append(self.description.as_str());
        html.append("<h5>\n<code>\n");
        html.append(markup.as_str());
        html.append("\n</code>");
        html
    }

    /// The markup in two parts, for two files: the main document, and the
    /// fragment with the packages that it includes.
    pub fn texfiles(&self) -> (parts: (String, String))
        requires
            all_render(self@.elements),
        ensures
            parts.0@ == split_latex_text(self@.metadata, self@.elements).0,
            parts.1@ == split_latex_text(self@.metadata, self@.elements).1,
    {
        render_split(&self.element_list)
    }

    /// `to_latex_string` where the list renders, nothing where it does not.
    pub fn try_to_latex_string(&self) -> (markup: Option<String>)
        ensures
            markup is Some <==> all_render(self@.elements),
            markup is Some ==> markup->0@ == latex_text(self@.metadata, self@.elements),
    {
        if self.renders() {
            Some(self.to_latex_string())
        } else {
            None
        }
    }

    /// `to_html` where the list renders, nothing where it does not.
    pub fn try_to_html(&self) -> (html: Option<String>)
        ensures
            html is Some <==> all_render(self@.elements),
            html is Some ==> html->0@ == html_text(
                self@,
                latex_text(self@.metadata, self@.elements),
            ),
    {
        if self.renders() {
            Some(self.to_html())
        } else {
            None
        }
    }

    /// `texfiles` where the list renders, nothing where it does not.
    pub fn try_texfiles(&self) -> (parts: Option<(String, String)>)
        ensures
            parts is Some <==> all_render(self@.elements),
            parts matches Some(pair) ==> pair.0@ == split_latex_text(
                self@.metadata,
                self@.elements,
            ).0 && pair.1@ == split_latex_text(self@.metadata, self@.elements).1,
    {
        if self.renders() {
            Some(self.texfiles())
        } else {
            None
        }
    }

    /// Puts a template together from its five parts, where none is missing.
    fn assemble(
        name: Option<String>,
        author: Option<String>,
        license: Option<String>,
        description: Option<String>,
        list: Option<ElementList>,
    ) -> (template: Option<Self>)
        ensures
            template is Some <==> name is Some && author is Some && license is Some
                && description is Some && list is Some,
            template is Some ==> template->0.name == name->0 && template->0.author == author->0
                && template->0.license == license->0 && template->0.description
                == description->0 && template->0.element_list == list->0,
    {
        match (name, author, license, description, list) {
            (Some(name), Some(author), Some(license), Some(description), Some(element_list)) => {
                Some(Template { name, author, license, description, element_list })
            },
            _ => None,
        }
    }

    /// Reads a template from a parsed document.
    pub fn from_document(document: &Value) -> (template: Option<Self>)
        ensures
            template is Some <==> decoded_document(*document) is Some,
            template is Some ==> template->0@ == decoded_document(*document)->0,
    {
        match items(document) {
            Some(values) => {
                if values.len() == 5 {
                    Self::assemble(
                        text_copy(&values[0]),
                        text_copy(&values[1]),
                        text_copy(&values[2]),
                        text_copy(&values[3]),
                        decode_list(&values[4]),
                    )
                } else {
                    None
                }
            },
            None => {
                let list = match member(document, "element_list") {
                    Some(value) => decode_list(value),
                    None => None,
                };
                Self::assemble(
                    member_text(document, "name"),
                    member_text(document, "author"),
                    member_text(document, "license"),
                    member_text(document, "description"),
                    list,
                )
            },
        }
    }

    /// Reads a template from JSON text, nothing where the text stands for none.
    pub fn try_from_string(content: &str) -> (template: Option<Self>)
        ensures
            template is Some <==> decoded(content@) is Some,
            template is Some ==> template->0@ == decoded(content@)->0,
    {
        match parse(content) {
            Some(document) => Self::from_document(&document),
            None => None,
        }
    }

    /// Reads a template from JSON text that stands for one.
    pub fn from_string(content: &str) -> (template: Self)
        requires
            decoded(content@) is Some,
        ensures
            template@ == decoded(content@)->0,
    {
        Self::try_from_string(content).unwrap()
    }
}

} // verus!
