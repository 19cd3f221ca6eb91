use crate::json::{json_parse, parse};
use crate::renderable::{check_renders, renders_within, NESTING_BOUND};
use serde_json::Value;
use vstd::prelude::*;

verus! {

/// Preamble data of a document: who wrote it, when, under which title, and how
/// it is typeset.
#[derive(Debug)]
pub struct Metadata {
    pub author: String,
    pub date: String,
    pub title: String,
    pub fontsize: u8,
    pub doc_class: String,
    pub maketitle: bool,
}

/// What a `Metadata` value says, with its texts as sequences of characters.
pub struct MetadataView {
    pub author: Seq<char>,
    pub date: Seq<char>,
    pub title: Seq<char>,
    pub fontsize: u8,
    pub doc_class: Seq<char>,
    pub maketitle: bool,
}

impl View for Metadata {
    type V = MetadataView;

    open spec fn view(&self) -> MetadataView {
        MetadataView {
            author: self.author@,
            date: self.date@,
            title: self.title@,
            fontsize: self.fontsize,
            doc_class: self.doc_class@,
            maketitle: self.maketitle,
        }
    }
}

impl Clone for Metadata {
    fn clone(&self) -> (copy: Self)
        ensures
            copy@ == self@,
    {
        Metadata {
            author: self.author.clone(),
            date: self.date.clone(),
            title: self.title.clone(),
            fontsize: self.fontsize,
            doc_class: self.doc_class.clone(),
            maketitle: self.maketitle,
        }
    }
}

/// The metadata that the engine gives a list made without any.
pub open spec fn default_metadata() -> MetadataView {
    MetadataView {
        author: "author"@,
        date: "date"@,
        title: "title"@,
        fontsize: 11,
        doc_class: "article"@,
        maketitle: true,
    }
}

/// One unit of typeset content: a `texcore::Element` over `texcore::Any`, held
/// as it is. Verus sees nothing inside it, for the engine's type is
/// bound by the engine's own rendering trait.
#[verifier::external_body]
#[derive(Debug)]
pub struct Element {
    inner: texcore::Element<texcore::Any>,
}

/// The engine's ordered list of elements together with its preamble metadata:
/// a `texcore::ElementList` over `texcore::Any`, held as it is and opaque to
/// Verus for the same reason.
#[verifier::external_body]
#[derive(Debug)]
pub struct ElementList {
    inner: texcore::ElementList<texcore::Any>,
}

/// The elements that a list holds, from its front to its back.
pub uninterp spec fn list_elements(list: ElementList) -> Seq<Element>;

/// The preamble metadata that a list holds.
pub uninterp spec fn list_metadata(list: ElementList) -> MetadataView;

/// The document that `serde_json::to_value` gives for an element.
pub uninterp spec fn element_document(element: Element) -> Value;

/// The element that `serde_json::from_value` reads from a document, where the
/// engine's element type accepts the document.
pub uninterp spec fn json_element(document: Value) -> Option<Element>;

/// The list that `serde_json::from_value` reads from a document, where the
/// engine's list type accepts the document.
pub uninterp spec fn json_list(document: Value) -> Option<ElementList>;

/// The indented JSON text that `serde_json::to_string_pretty` writes for a list
/// with this metadata and these elements.
pub uninterp spec fn list_json(metadata: MetadataView, elements: Seq<Element>) -> Seq<char>;

/// The markup that `ElementList::to_latex_string` gives for a list with this
/// metadata and these elements.
pub uninterp spec fn latex_text(metadata: MetadataView, elements: Seq<Element>) -> Seq<char>;

/// The markup in two parts that `ElementList::to_latex_split_string` gives for
/// such a list: the main document, and the fragment with its packages.
pub uninterp spec fn split_latex_text(metadata: MetadataView, elements: Seq<Element>) -> (
    Seq<char>,
    Seq<char>,
);

/// Whether the engine can turn this element into markup.
pub open spec fn element_renders(element: Element) -> bool {
    renders_within(element_document(element), NESTING_BOUND as nat)
}

/// Whether the engine can turn each of these elements into markup.
pub open spec fn all_render(elements: Seq<Element>) -> bool {
    forall|i: int| 0 <= i < elements.len() ==> #[trigger] element_renders(elements[i])
}

/// `ElementList::default`: a list without elements, under the metadata that the
/// engine's `Metadata::default` holds.
#[verifier::external_body]
pub(crate) fn default_list() -> (list: ElementList)
    ensures
        list_elements(list) == Seq::<Element>::empty(),
        list_metadata(list) == default_metadata(),
{
    ElementList { inner: texcore::ElementList::default() }
}

/// `ElementList::new`: a list without elements that keeps the six metadata
/// values as given.
#[verifier::external_body]
pub(crate) fn seeded_list(
    author: &str,
    date: &str,
    title: &str,
    fontsize: u8,
    doc_class: &str,
    maketitle: bool,
) -> (list: ElementList)
    ensures
        list_elements(list) == Seq::<Element>::empty(),
        list_metadata(list) == (MetadataView {
            author: author@,
            date: date@,
            title: title@,
            fontsize,
            doc_class: doc_class@,
            maketitle,
        }),
{
    ElementList {
        inner: texcore::ElementList::new(author, date, title, fontsize, doc_class, maketitle),
    }
}

/// `ElementList::push`: the element goes to the back of the list, and nothing
/// else changes.
#[verifier::external_body]
pub(crate) fn list_push(list: &mut ElementList, element: Element)
    ensures
        list_elements(*final(list)) == list_elements(*old(list)).push(element),
        list_metadata(*final(list)) == list_metadata(*old(list)),
{
    list.inner.push(element.inner)
}

/// The derived `Clone` of the engine's list: the copy holds the same elements
/// in the same order under the same metadata.
#[verifier::external_body]
pub(crate) fn copy_list(list: &ElementList) -> (copy: ElementList)
    ensures
        list_elements(copy) == list_elements(*list),
        list_metadata(copy) == list_metadata(*list),
{
    ElementList { inner: list.inner.clone() }
}

/// `ElementList::list_to_vec`: copies of the elements, in the list's order.
#[verifier::external_body]
pub(crate) fn list_items(list: &ElementList) -> (items: Vec<Element>)
    ensures
        items@ == list_elements(*list),
{
    list.inner.list_to_vec().into_iter().map(|e| Element { inner: e }).collect()
}

/// `ElementList::to_latex_string` on a copy of the list. The engine panics on
/// content tagged as a list without items and on content tagged as an
/// environment without elements, at the top or inside an environment:
/// `all_render` keeps lists with such an element out.
#[verifier::external_body]
pub(crate) fn render(list: &ElementList) -> (markup: String)
    requires
        all_render(list_elements(*list)),
    ensures
        markup@ == latex_text(list_metadata(*list), list_elements(*list)),
{
    list.inner.clone().to_latex_string()
}

/// `ElementList::to_latex_split_string` on a copy of the list, under the same
/// condition as `render`.
#[verifier::external_body]
pub(crate) fn render_split(list: &ElementList) -> (parts: (String, String))
    requires
        all_render(list_elements(*list)),
    ensures
        parts.0@ == split_latex_text(list_metadata(*list), list_elements(*list)).0,
        parts.1@ == split_latex_text(list_metadata(*list), list_elements(*list)).1,
{
    list.inner.clone().to_latex_split_string()
}

/// `serde_json::to_string_pretty` on the engine's list. The list is made of
/// texts, numbers, flags, tags and sequences, which this serializer always
/// writes.
#[verifier::external_body]
pub(crate) fn encode_list(list: &ElementList) -> (text: String)
    ensures
        text@ == list_json(list_metadata(*list), list_elements(*list)),
{
    serde_json::to_string_pretty(&list.inner).unwrap()
}

/// `serde_json::from_value` at the engine's list type, on a copy of the
/// document: the list where the document is accepted, nothing on an error.
#[verifier::external_body]
pub(crate) fn decode_list(document: &Value) -> (list: Option<ElementList>)
    ensures
        list == json_list(*document),
{
    serde_json::from_value(document.clone()).ok().map(|inner| ElementList { inner })
}

/// `serde_json::from_value` at the engine's element type, on a copy of the
/// document: the element where the document is accepted, nothing on an error.
#[verifier::external_body]
pub(crate) fn decode_element(document: &Value) -> (element: Option<Element>)
    ensures
        element == json_element(*document),
{
    serde_json::from_value(document.clone()).ok().map(|inner| Element { inner })
}

/// `serde_json::to_value` on the engine's element, which this serializer
/// always writes.
#[verifier::external_body]
pub(crate) fn element_to_value(element: &Element) -> (document: Value)
    ensures
        document == element_document(*element),
{
    serde_json::to_value(&element.inner).unwrap()
}

/// The element that a JSON text decodes to, if it decodes to one.
pub open spec fn decoded_element(text: Seq<char>) -> Option<Element> {
    match json_parse(text) {
        Some(document) => json_element(document),
        None => None,
    }
}

impl Metadata {
    /// Metadata with copies of these six values.
    pub fn new(
        author: &str,
        date: &str,
        title: &str,
        fontsize: u8,
        doc_class: &str,
        maketitle: bool,
    ) -> (metadata: Self)
        ensures
            metadata@ == (MetadataView {
                author: author@,
                date: date@,
                title: title@,
                fontsize,
                doc_class: doc_class@,
                maketitle,
            }),
    {
        Metadata {
            author: author.to_owned(),
            date: date.to_owned(),
            title: title.to_owned(),
            fontsize,
            doc_class: doc_class.to_owned(),
            maketitle,
        }
    }
}

impl Element {
    /// Reads an element from its JSON text, as the engine writes it.
    pub fn from_json(text: &str) -> (element: Option<Element>)
        ensures
            element == decoded_element(text@),
    {
        match parse(text) {
            Some(document) => decode_element(&document),
            None => None,
        }
    }

    /// Whether the engine can turn this element into markup.
    pub fn renders(&self) -> (ok: bool)
        ensures
            ok == element_renders(*self),
    {
        let document = element_to_value(self);
        check_renders(&document, NESTING_BOUND)
    }
}

impl ElementList {
    /// An empty list under the given metadata.
    pub fn new(
        author: &str,
        date: &str,
        title: &str,
        fontsize: u8,
        doc_class: &str,
        maketitle: bool,
    ) -> (list: Self)
        ensures
            list_elements(list) == Seq::<Element>::empty(),
            list_metadata(list) == (MetadataView {
                author: author@,
                date: date@,
                title: title@,
                fontsize,
                doc_class: doc_class@,
                maketitle,
            }),
    {
        seeded_list(author, date, title, fontsize, doc_class, maketitle)
    }

    /// Appends one element at the end.
    pub fn push(&mut self, element: Element)
        ensures
            list_elements(*final(self)) == list_elements(*old(self)).push(element),
            list_metadata(*final(self)) == list_metadata(*old(self)),
    {
        list_push(self, element)
    }

    /// Whether the engine can turn every element of the list into markup.
    pub fn renders(&self) -> (ok: bool)
        ensures
            ok == all_render(list_elements(*self)),
    {
        let items = list_items(self);
        let mut i: usize = 0;
        while i < items.len()
            invariant
                i <= items.len(),
                items@ == list_elements(*self),
                forall|j: int| 0 <= j < i ==> #[trigger] element_renders(items@[j]),
            decreases items.len() - i,
        {
            if !items[i].renders() {
                return false;
            }
            i += 1;
        }
        true
    }
}

impl Default for ElementList {
    /// An empty list under the engine's default metadata.
    fn default() -> (list: Self)
        ensures
            list_elements(list) == Seq::<Element>::empty(),
            list_metadata(list) == default_metadata(),
    {
        default_list()
    }
}

impl Clone for ElementList {
    fn clone(&self) -> (copy: Self)
        ensures
            list_elements(copy) == list_elements(*self),
            list_metadata(copy) == list_metadata(*self),
    {
        copy_list(self)
    }
}

} // verus!
