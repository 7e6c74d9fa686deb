//! The structured data of a message: named elements, each with parameters.

use vstd::prelude::*;
use vstd::utf8::encode_utf8;
use crate::ascii::{BACKSLASH, CLOSE, DASH, EQUALS, OPEN, QUOTE, SPACE};
use crate::bytes::append_text;

verus! {

/// One parameter of an element, as a value of the model.
pub struct ParamView {
    pub name: Seq<char>,
    pub value: Seq<char>,
}

/// One element, as a value of the model.
pub struct ElementView {
    pub id: Seq<char>,
    pub params: Seq<ParamView>,
}

/// One parameter of an element: a name and its value.
#[derive(Clone, Debug)]
pub struct Param {
    pub name: String,
    pub value: String,
}

/// One element: its id and its parameters, in the order they were first
/// given.
#[derive(Clone, Debug)]
pub struct Element {
    pub id: String,
    pub params: Vec<Param>,
}

impl View for Param {
    type V = ParamView;

    open spec fn view(&self) -> ParamView {
        ParamView { name: self.name@, value: self.value@ }
    }
}

impl View for Element {
    type V = ElementView;

    open spec fn view(&self) -> ElementView {
        ElementView { id: self.id@, params: self.params@.map_values(|p: Param| p@) }
    }
}

/// The index of the first parameter named `name`, or the number of
/// parameters where there is none.
pub open spec fn param_index(params: Seq<ParamView>, name: Seq<char>) -> int
    decreases params.len(),
{
    if params.len() == 0 {
        0
    } else if params.first().name == name {
        0
    } else {
        1 + param_index(params.drop_first(), name)
    }
}

/// The index of the first element with the id `id`, or the number of
/// elements where there is none.
pub open spec fn element_index(elements: Seq<ElementView>, id: Seq<char>) -> int
    decreases elements.len(),
{
    if elements.len() == 0 {
        0
    } else if elements.first().id == id {
        0
    } else {
        1 + element_index(elements.drop_first(), id)
    }
}

/// Whether no two parameters have the same name.
pub open spec fn distinct_names(params: Seq<ParamView>) -> bool {
    forall|i: int, j: int|
        0 <= i < j < params.len() ==> (#[trigger] params[i]).name != (#[trigger] params[j]).name
}

/// Whether no two elements have the same id, and within each element no
/// two parameters the same name.
pub open spec fn well_formed(elements: Seq<ElementView>) -> bool {
    &&& forall|i: int, j: int|
        0 <= i < j < elements.len() ==> (#[trigger] elements[i]).id != (#[trigger] elements[j]).id
    &&& forall|i: int| 0 <= i < elements.len() ==> distinct_names((#[trigger] elements[i]).params)
}

/// The value of the parameter `name` of the element `id`, if there is one.
pub open spec fn lookup(elements: Seq<ElementView>, id: Seq<char>, name: Seq<char>) -> Option<
    Seq<char>,
> {
    let e = element_index(elements, id);
    if e < elements.len() {
        let p = param_index(elements[e].params, name);
        if p < elements[e].params.len() {
            Some(elements[e].params[p].value)
        } else {
            None
        }
    } else {
        None
    }
}

/// `params` with `name` set to `value`: in place where the name is there
/// already, at the end where it is new.
pub open spec fn with_param(params: Seq<ParamView>, name: Seq<char>, value: Seq<char>) -> Seq<
    ParamView,
> {
    let p = param_index(params, name);
    if p < params.len() {
        params.update(p, ParamView { name, value })
    } else {
        params.push(ParamView { name, value })
    }
}

/// `elements` with the element `id` present: unchanged where it is there
/// already, with an element without parameters at the end where it is new.
pub open spec fn with_element(elements: Seq<ElementView>, id: Seq<char>) -> Seq<ElementView> {
    if element_index(elements, id) < elements.len() {
        elements
    } else {
        elements.push(ElementView { id, params: Seq::empty() })
    }
}

/// `elements` with the parameter `name` of the element `id` set to `value`.
/// An element that is there keeps its place, and so does a parameter; what
/// is new goes to the end.
pub open spec fn with_entry(
    elements: Seq<ElementView>,
    id: Seq<char>,
    name: Seq<char>,
    value: Seq<char>,
) -> Seq<ElementView> {
    let present = with_element(elements, id);
    let e = element_index(present, id);
    present.update(e, ElementView { id, params: with_param(present[e].params, name, value) })
}

/// One byte of a parameter's value as it is written between the quotes: a
/// quote, a backslash and a closing bracket each follow a backslash.
pub open spec fn escaped_byte(b: u8) -> Seq<u8> {
    if b == QUOTE || b == BACKSLASH || b == CLOSE {
        seq![BACKSLASH, b]
    } else {
        seq![b]
    }
}

/// A parameter's value as it is written between the quotes.
pub open spec fn escaped(value: Seq<u8>) -> Seq<u8>
    decreases value.len(),
{
    if value.len() == 0 {
        Seq::empty()
    } else {
        escaped(value.drop_last()) + escaped_byte(value.last())
    }
}

/// What is read back from an escaped value: a backslash is dropped and the
/// byte after it kept.
pub open spec fn unescaped(text: Seq<u8>) -> Seq<u8>
    decreases text.len(),
{
    if text.len() == 0 {
        Seq::empty()
    } else if text.first() == BACKSLASH && text.len() >= 2 {
        seq![text[1]] + unescaped(text.skip(2))
    } else {
        seq![text.first()] + unescaped(text.drop_first())
    }
}

/// One parameter as written: a space, the name, and the escaped value in
/// quotes after an equals sign.
pub open spec fn param_text(param: ParamView) -> Seq<u8> {
    seq![SPACE] + encode_utf8(param.name) + seq![EQUALS, QUOTE] + escaped(encode_utf8(param.value))
        + seq![QUOTE]
}

/// The parameters of an element as written, in their order.
pub open spec fn params_text(params: Seq<ParamView>) -> Seq<u8>
    decreases params.len(),
{
    if params.len() == 0 {
        Seq::empty()
    } else {
        params_text(params.drop_last()) + param_text(params.last())
    }
}

/// One element as written: its id and its parameters in square brackets.
pub open spec fn element_text(element: ElementView) -> Seq<u8> {
    seq![OPEN] + encode_utf8(element.id) + params_text(element.params) + seq![CLOSE]
}

/// The elements as written, in their order, with nothing between them.
pub open spec fn elements_text(elements: Seq<ElementView>) -> Seq<u8>
    decreases elements.len(),
{
    if elements.len() == 0 {
        Seq::empty()
    } else {
        elements_text(elements.drop_last()) + element_text(elements.last())
    }
}

/// The structured data of a message as written: the elements in their
/// order, or a single dash where there is none.
pub open spec fn structured_data_text(elements: Seq<ElementView>) -> Seq<u8> {
    if elements.len() == 0 {
        seq![DASH]
    } else {
        elements_text(elements)
    }
}

/// Escaping goes byte by byte: what two values give one after the other
/// is what they give joined.
pub proof fn lemma_escaped_concat(a: Seq<u8>, b: Seq<u8>)
    ensures
        escaped(a + b) == escaped(a) + escaped(b),
    decreases b.len(),
{
    if b.len() > 0 {
        lemma_escaped_concat(a, b.drop_last());
        assert((a + b).drop_last() =~= a + b.drop_last());
    }
}

/// Nothing is lost in escaping: what is read back from an escaped value is
/// the value.
pub proof fn lemma_escaped_reads_back(value: Seq<u8>)
    ensures
        unescaped(escaped(value)) == value,
    decreases value.len(),
{
    if value.len() > 0 {
        let first = seq![value.first()];
        let rest = value.drop_first();
        assert(value =~= first + rest);
        lemma_escaped_concat(first, rest);
        assert(escaped(first.drop_last()) =~= Seq::<u8>::empty());
        lemma_escaped_reads_back(rest);
        let text = escaped(value);
        if text.first() == BACKSLASH {
            assert(text.skip(2) =~= escaped(rest));
        } else {
            assert(text.drop_first() =~= escaped(rest));
        }
    }
}

/// In an escaped value no quote and no closing bracket stands bare: each
/// follows a backslash.
pub proof fn lemma_escaped_has_no_bare_special(value: Seq<u8>, i: int)
    requires
        0 <= i < escaped(value).len(),
        escaped(value)[i] == QUOTE || escaped(value)[i] == CLOSE,
    ensures
        i > 0,
        escaped(value)[i - 1] == BACKSLASH,
    decreases value.len(),
{
    if value.len() > 0 {
        let head = escaped(value.drop_last());
        if i < head.len() {
            lemma_escaped_has_no_bare_special(value.drop_last(), i);
        }
    }
}

/// The parameters are written one after the other: what two runs of
/// parameters give is what they give joined.
pub proof fn lemma_params_text_concat(a: Seq<ParamView>, b: Seq<ParamView>)
    ensures
        params_text(a + b) == params_text(a) + params_text(b),
    decreases b.len(),
{
    if b.len() > 0 {
        lemma_params_text_concat(a, b.drop_last());
        assert((a + b).drop_last() =~= a + b.drop_last());
    }
}

/// The elements are written one after the other: what two runs of elements
/// give is what they give joined.
pub proof fn lemma_elements_text_concat(a: Seq<ElementView>, b: Seq<ElementView>)
    ensures
        elements_text(a + b) == elements_text(a) + elements_text(b),
    decreases b.len(),
{
    if b.len() > 0 {
        lemma_elements_text_concat(a, b.drop_last());
        assert((a + b).drop_last() =~= a + b.drop_last());
    }
}

/// Every parameter of an element is written, whole and in its place:
/// after the parameters before it and before those after it.
pub proof fn lemma_every_param_is_written(params: Seq<ParamView>, i: int)
    requires
        0 <= i < params.len(),
    ensures
        params_text(params) == params_text(params.take(i)) + param_text(params[i]) + params_text(
            params.skip(i + 1),
        ),
{
    let one = seq![params[i]];
    assert(params =~= params.take(i) + one + params.skip(i + 1));
    lemma_params_text_concat(params.take(i) + one, params.skip(i + 1));
    lemma_params_text_concat(params.take(i), one);
    assert(params_text(one.drop_last()) =~= Seq::<u8>::empty());
}

/// Every element is written, whole and in its place: after the elements
/// before it and before those after it.
pub proof fn lemma_every_element_is_written(elements: Seq<ElementView>, i: int)
    requires
        0 <= i < elements.len(),
    ensures
        structured_data_text(elements) == elements_text(elements.take(i)) + element_text(
            elements[i],
        ) + elements_text(elements.skip(i + 1)),
{
    let one = seq![elements[i]];
    assert(elements =~= elements.take(i) + one + elements.skip(i + 1));
    lemma_elements_text_concat(elements.take(i) + one, elements.skip(i + 1));
    lemma_elements_text_concat(elements.take(i), one);
    assert(elements_text(one.drop_last()) =~= Seq::<u8>::empty());
}

/// What is written depends on the contents alone: structured data with the
/// same elements and parameters in the same order is written the same,
/// byte for byte.
pub proof fn lemma_same_contents_same_text(a: StructuredData, b: StructuredData)
    requires
        a@ == b@,
    ensures
        structured_data_text(a@) == structured_data_text(b@),
{
}

/// Without elements the structured data is written as a single dash, and
/// with elements it opens with a square bracket.
pub proof fn lemma_structured_data_is_dash_or_elements(elements: Seq<ElementView>)
    ensures
        elements.len() == 0 ==> structured_data_text(elements) == seq![DASH],
        elements.len() > 0 ==> structured_data_text(elements).len() >= 2
            && structured_data_text(elements)[0] == OPEN,
{
    if elements.len() > 0 {
        lemma_every_element_is_written(elements, 0);
    }
}

/// Whether two texts are the same.
pub fn same_text(a: &str, b: &str) -> (same: bool)
    ensures
        same == (a@ == b@),
{
    let x = a.as_bytes();
    let y = b.as_bytes();
    proof {
        vstd::utf8::encode_utf8_decode_utf8(a@);
        vstd::utf8::encode_utf8_decode_utf8(b@);
        assert(x@ == y@ ==> a@ == b@);
    }
    if x.len() != y.len() {
        return false;
    }
    let mut i: usize = 0;
    while i < x.len()
        invariant
            i <= x@.len(),
            x@.len() == y@.len(),
            x@ == encode_utf8(a@),
            y@ == encode_utf8(b@),
            forall|k: int| 0 <= k < i ==> x@[k] == y@[k],
        decreases x@.len() - i,
    {
        if x[i] != y[i] {
            return false;
        }
        i += 1;
    }
    assert(x@ =~= y@);
    true
}

/// Appends `value` to `out` as it is written between the quotes.
pub fn append_escaped(out: &mut Vec<u8>, value: &[u8])
    ensures
        final(out)@ == old(out)@ + escaped(value@),
{
    let mut i: usize = 0;
    while i < value.len()
        invariant
            i <= value@.len(),
            out@ == old(out)@ + escaped(value@.subrange(0, i as int)),
        decreases value@.len() - i,
    {
        let b = value[i];
        if b == QUOTE || b == BACKSLASH || b == CLOSE {
            out.push(BACKSLASH);
        }
        out.push(b);
        i += 1;
        assert(value@.subrange(0, i as int).drop_last() =~= value@.subrange(0, i - 1));
    }
    assert(value@.subrange(0, i as int) =~= value@);
}

/// Where every parameter before `i` has another name, the first one named
/// `name` is found by searching from `i` on.
pub proof fn lemma_param_index_from(params: Seq<ParamView>, name: Seq<char>, i: int)
    requires
        0 <= i <= params.len(),
        forall|k: int| 0 <= k < i ==> (#[trigger] params[k]).name != name,
    ensures
        param_index(params, name) == i + param_index(params.skip(i), name),
    decreases i,
{
    if i == 0 {
        assert(params.skip(0) =~= params);
    } else {
        lemma_param_index_from(params.drop_first(), name, i - 1);
        assert(params.drop_first().skip(i - 1) =~= params.skip(i));
    }
}

/// Where every element before `i` has another id, the first one with the
/// id `id` is found by searching from `i` on.
pub proof fn lemma_element_index_from(elements: Seq<ElementView>, id: Seq<char>, i: int)
    requires
        0 <= i <= elements.len(),
        forall|k: int| 0 <= k < i ==> (#[trigger] elements[k]).id != id,
    ensures
        element_index(elements, id) == i + element_index(elements.skip(i), id),
    decreases i,
{
    if i == 0 {
        assert(elements.skip(0) =~= elements);
    } else {
        lemma_element_index_from(elements.drop_first(), id, i - 1);
        assert(elements.drop_first().skip(i - 1) =~= elements.skip(i));
    }
}

/// What `param_index` finds: an index within bounds or the length, with
/// the name at the index that it gives and at no index before it.
pub proof fn lemma_param_index(params: Seq<ParamView>, name: Seq<char>)
    ensures
        0 <= param_index(params, name) <= params.len(),
        param_index(params, name) < params.len() ==> params[param_index(params, name)].name
            == name,
        forall|k: int| 0 <= k < param_index(params, name) ==> (#[trigger] params[k]).name != name,
    decreases params.len(),
{
    if params.len() > 0 && params.first().name != name {
        let rest = params.drop_first();
        lemma_param_index(rest, name);
        assert forall|k: int| 0 <= k < param_index(params, name) implies (#[trigger] params[k]).name
            != name by {
            if k > 0 {
                assert(params[k] == rest[k - 1]);
            }
        }
    }
}

/// What `element_index` finds: an index within bounds or the length, with
/// the id at the index that it gives and at no index before it.
pub proof fn lemma_element_index(elements: Seq<ElementView>, id: Seq<char>)
    ensures
        0 <= element_index(elements, id) <= elements.len(),
        element_index(elements, id) < elements.len() ==> elements[element_index(elements, id)].id
            == id,
        forall|k: int| 0 <= k < element_index(elements, id) ==> (#[trigger] elements[k]).id != id,
    decreases elements.len(),
{
    if elements.len() > 0 && elements.first().id != id {
        let rest = elements.drop_first();
        lemma_element_index(rest, id);
        assert forall|k: int| 0 <= k < element_index(elements, id) implies (
        #[trigger] elements[k]).id != id by {
            if k > 0 {
                assert(elements[k] == rest[k - 1]);
            }
        }
    }
}

/// Setting a parameter keeps the names distinct.
pub proof fn lemma_with_param_keeps_names_distinct(
    params: Seq<ParamView>,
    name: Seq<char>,
    value: Seq<char>,
)
    requires
        distinct_names(params),
    ensures
        distinct_names(with_param(params, name, value)),
{
    lemma_param_index(params, name);
    let after = with_param(params, name, value);
    assert forall|i: int, j: int| 0 <= i < j < after.len() implies (#[trigger] after[i]).name != (
    #[trigger] after[j]).name by {}
}

/// After `with_element` the element is there, at the index where it was
/// before or else at the end.
pub proof fn lemma_with_element_has_element(elements: Seq<ElementView>, id: Seq<char>)
    ensures
        element_index(with_element(elements, id), id) == element_index(elements, id),
        element_index(with_element(elements, id), id) < with_element(elements, id).len(),
{
    lemma_element_index(elements, id);
    let e = element_index(elements, id);
    if e == elements.len() {
        let after = with_element(elements, id);
        assert forall|k: int| 0 <= k < e implies (#[trigger] after[k]).id != id by {}
        lemma_element_index_from(after, id, e);
    }
}

/// Making sure that an element is there keeps the data well formed.
pub proof fn lemma_with_element_keeps_well_formed(elements: Seq<ElementView>, id: Seq<char>)
    requires
        well_formed(elements),
    ensures
        well_formed(with_element(elements, id)),
{
    lemma_element_index(elements, id);
    let after = with_element(elements, id);
    if element_index(elements, id) == elements.len() {
        assert forall|i: int, j: int| 0 <= i < j < after.len() implies (#[trigger] after[i]).id != (
        #[trigger] after[j]).id by {}
        assert forall|i: int| 0 <= i < after.len() implies distinct_names(
            (#[trigger] after[i]).params,
        ) by {}
    }
}

/// Setting a parameter of an element keeps the data well formed.
pub proof fn lemma_with_entry_keeps_well_formed(
    elements: Seq<ElementView>,
    id: Seq<char>,
    name: Seq<char>,
    value: Seq<char>,
)
    requires
        well_formed(elements),
    ensures
        well_formed(with_entry(elements, id, name, value)),
{
    let present = with_element(elements, id);
    lemma_with_element_keeps_well_formed(elements, id);
    lemma_with_element_has_element(elements, id);
    lemma_element_index(present, id);
    let e = element_index(present, id);
    lemma_with_param_keeps_names_distinct(present[e].params, name, value);
    let after = with_entry(elements, id, name, value);
    assert forall|i: int, j: int| 0 <= i < j < after.len() implies (#[trigger] after[i]).id != (
    #[trigger] after[j]).id by {}
    assert forall|i: int| 0 <= i < after.len() implies distinct_names(
        (#[trigger] after[i]).params,
    ) by {}
}

/// An index is what `param_index` gives where the name is at no index
/// before it, and is at that index unless it is the length.
pub proof fn lemma_param_index_is(params: Seq<ParamView>, name: Seq<char>, i: int)
    requires
        0 <= i <= params.len(),
        forall|k: int| 0 <= k < i ==> (#[trigger] params[k]).name != name,
        i < params.len() ==> params[i].name == name,
    ensures
        param_index(params, name) == i,
{
    lemma_param_index_from(params, name, i);
}

/// An index is what `element_index` gives where the id is at no index
/// before it, and is at that index unless it is the length.
pub proof fn lemma_element_index_is(elements: Seq<ElementView>, id: Seq<char>, i: int)
    requires
        0 <= i <= elements.len(),
        forall|k: int| 0 <= k < i ==> (#[trigger] elements[k]).id != id,
        i < elements.len() ==> elements[i].id == id,
    ensures
        element_index(elements, id) == i,
{
    lemma_element_index_from(elements, id, i);
}

/// Setting a parameter changes what is found under its name, and under no
/// other name.
pub proof fn lemma_with_param_sets_one(
    params: Seq<ParamView>,
    name: Seq<char>,
    value: Seq<char>,
    other: Seq<char>,
)
    ensures
        ({
            let after = with_param(params, name, value);
            let i = param_index(after, other);
            let before = param_index(params, other);
            if other == name {
                i < after.len() && after[i].value == value
            } else if before < params.len() {
                i == before && i < after.len() && after[i].value == params[before].value
            } else {
                i == after.len()
            }
        }),
{
    let after = with_param(params, name, value);
    lemma_param_index(params, name);
    lemma_param_index(params, other);
    let p = param_index(params, name);
    let q = param_index(params, other);
    if other == name {
        assert forall|k: int| 0 <= k < p implies (#[trigger] after[k]).name != name by {}
        lemma_param_index_is(after, name, p);
    } else if q < params.len() {
        assert forall|k: int| 0 <= k < q implies (#[trigger] after[k]).name != other by {}
        lemma_param_index_is(after, other, q);
    } else {
        assert forall|k: int| 0 <= k < after.len() implies (#[trigger] after[k]).name != other by {}
        lemma_param_index_is(after, other, after.len() as int);
    }
}

/// A parameter that was set is found with its value, and every other
/// parameter, of this element or another, is found as before.
pub proof fn lemma_lookup_after_with_entry(
    elements: Seq<ElementView>,
    id: Seq<char>,
    name: Seq<char>,
    value: Seq<char>,
    other_id: Seq<char>,
    other_name: Seq<char>,
)
    ensures
        lookup(with_entry(elements, id, name, value), id, name) == Some(value),
        other_id != id || other_name != name ==> lookup(
            with_entry(elements, id, name, value),
            other_id,
            other_name,
        ) == lookup(elements, other_id, other_name),
{
    let present = with_element(elements, id);
    lemma_with_element_has_element(elements, id);
    lemma_element_index(elements, id);
    lemma_element_index(present, id);
    let e = element_index(present, id);
    let params = present[e].params;
    let after = with_entry(elements, id, name, value);
    // the element is still the first with its id
    assert forall|k: int| 0 <= k < e implies (#[trigger] after[k]).id != id by {}
    lemma_element_index_is(after, id, e);
    lemma_with_param_sets_one(params, name, value, name);
    if other_id != id {
        lemma_element_index(elements, other_id);
        let o = element_index(elements, other_id);
        assert forall|k: int| 0 <= k < after.len() implies (#[trigger] after[k]).id
            == present[k].id by {}
        if o < elements.len() {
            assert forall|k: int| 0 <= k < o implies (#[trigger] after[k]).id != other_id by {}
            lemma_element_index_is(after, other_id, o);
        } else {
            assert forall|k: int| 0 <= k < after.len() implies (#[trigger] after[k]).id
                != other_id by {}
            lemma_element_index_is(after, other_id, after.len() as int);
        }
    } else if other_name != name {
        lemma_with_param_sets_one(params, name, value, other_name);
    }
}

/// Appends one parameter as written to `out`.
pub fn append_param(out: &mut Vec<u8>, param: &Param)
    ensures
        final(out)@ == old(out)@ + param_text(param@),
{
    out.push(SPACE);
    append_text(out, param.name.as_str());
    out.push(EQUALS);
    out.push(QUOTE);
    append_escaped(out, param.value.as_str().as_bytes());
    out.push(QUOTE);
}

/// Appends one element as written to `out`.
pub fn append_element(out: &mut Vec<u8>, element: &Element)
    ensures
        final(out)@ == old(out)@ + element_text(element@),
{
    out.push(OPEN);
    append_text(out, element.id.as_str());
    let ghost params = element@.params;
    let ghost head = old(out)@ + seq![OPEN] + encode_utf8(element.id@);
    let mut i: usize = 0;
    while i < element.params.len()
        invariant
            i <= element.params@.len(),
            params == element@.params,
            out@ == head + params_text(params.take(i as int)),
        decreases element.params@.len() - i,
    {
        append_param(out, &element.params[i]);
        i += 1;
        assert(params.take(i as int).drop_last() =~= params.take(i - 1));
    }
    assert(params.take(i as int) =~= params);
    out.push(CLOSE);
}

/// The index of the first parameter named `name`, or the number of
/// parameters where there is none.
pub fn find_param(params: &Vec<Param>, name: &str) -> (p: usize)
    ensures
        p == param_index(params@.map_values(|p: Param| p@), name@),
        p <= params@.len(),
{
    let ghost views = params@.map_values(|p: Param| p@);
    let mut i: usize = 0;
    while i < params.len()
        invariant
            i <= params@.len(),
            views == params@.map_values(|p: Param| p@),
            forall|k: int| 0 <= k < i ==> (#[trigger] views[k]).name != name@,
        decreases params@.len() - i,
    {
        if same_text(params[i].name.as_str(), name) {
            proof {
                lemma_param_index_from(views, name@, i as int);
            }
            return i;
        }
        i += 1;
    }
    proof {
        lemma_param_index_from(views, name@, i as int);
    }
    i
}

/// The structured data of a message: elements by id, each with parameters
/// by name, kept in the order in which they were first given.
#[derive(Debug)]
pub struct StructuredData {
    elements: Vec<Element>,
}

impl View for StructuredData {
    type V = Seq<ElementView>;

    closed spec fn view(&self) -> Seq<ElementView> {
        self.elements@.map_values(|e: Element| e@)
    }
}

impl StructuredData {
    /// Whether no two elements have the same id, and within each element
    /// no two parameters the same name.
    pub open spec fn wf(&self) -> bool {
        well_formed(self@)
    }

    /// Structured data without any element.
    pub fn new() -> (data: StructuredData)
        ensures
            data@ == Seq::<ElementView>::empty(),
            data.wf(),
    {
        let data = StructuredData { elements: Vec::new() };
        data
    }

    /// The number of elements.
    pub fn len(&self) -> (n: usize)
        ensures
            n == self@.len(),
    {
        self.elements.len()
    }

    /// Whether there is no element.
    pub fn is_empty(&self) -> (empty: bool)
        ensures
            empty == (self@.len() == 0),
    {
        self.elements.len() == 0
    }

    /// The index of the first element with the id `id`, or the number of
    /// elements where there is none.
    fn find_element(&self, id: &str) -> (e: usize)
        ensures
            e == element_index(self@, id@),
            e <= self@.len(),
    {
        let mut i: usize = 0;
        while i < self.elements.len()
            invariant
                i <= self.elements@.len(),
                forall|k: int| 0 <= k < i ==> (#[trigger] self@[k]).id != id@,
            decreases self.elements@.len() - i,
        {
            if same_text(self.elements[i].id.as_str(), id) {
                proof {
                    lemma_element_index_from(self@, id@, i as int);
                }
                return i;
            }
            i += 1;
        }
        proof {
            lemma_element_index_from(self@, id@, i as int);
        }
        i
    }

    /// The value of the parameter `name` of the element `id`, if there is
    /// one.
    pub fn get(&self, id: &str, name: &str) -> (value: Option<&str>)
        ensures
            match value {
                Some(text) => lookup(self@, id@, name@) == Some(text@),
                None => lookup(self@, id@, name@) is None,
            },
    {
        let e = self.find_element(id);
        if e < self.elements.len() {
            let p = find_param(&self.elements[e].params, name);
            if p < self.elements[e].params.len() {
                Some(self.elements[e].params[p].value.as_str())
            } else {
                None
            }
        } else {
            None
        }
    }

    /// Appends the structured data as written to `out`: the elements in
    /// their order, or a single dash where there is none.
    pub fn write(&self, out: &mut Vec<u8>)
        ensures
            final(out)@ == old(out)@ + structured_data_text(self@),
    {
        if self.elements.len() == 0 {
            out.push(DASH);
            return;
        }
        let mut i: usize = 0;
        while i < self.elements.len()
            invariant
                i <= self.elements@.len(),
                out@ == old(out)@ + elements_text(self@.take(i as int)),
            decreases self.elements@.len() - i,
        {
            append_element(out, &self.elements[i]);
            i += 1;
            assert(self@.take(i as int).drop_last() =~= self@.take(i - 1));
        }
        assert(self@.take(i as int) =~= self@);
    }

    /// The structured data as written.
    pub fn render(&self) -> (text: Vec<u8>)
        ensures
            text@ == structured_data_text(self@),
    {
        let mut text: Vec<u8> = Vec::new();
        self.write(&mut text);
        text
    }

    /// Makes sure that the element `id` is there: a new element is put
    /// last, without parameters.
    pub fn add_element(&mut self, id: &str)
        ensures
            final(self)@ == with_element(old(self)@, id@),
            old(self).wf() ==> final(self).wf(),
    {
        let e = self.find_element(id);
        if e == self.elements.len() {
            let element = Element { id: id.to_owned(), params: Vec::new() };
            assert(element@.params =~= Seq::<ParamView>::empty());
            self.elements.push(element);
        }
        proof {
            if old(self).wf() {
                lemma_with_element_keeps_well_formed(old(self)@, id@);
            }
        }
    }

    /// Sets the parameter `name` of the element `id` to `value`. An
    /// element that is there keeps its place, and so does a parameter;
    /// what is new is put last.
    pub fn insert(&mut self, id: &str, name: &str, value: &str)
        ensures
            final(self)@ == with_entry(old(self)@, id@, name@, value@),
            old(self).wf() ==> final(self).wf(),
    {
        self.add_element(id);
        let ghost present = self@;
        let e = self.find_element(id);
        proof {
            lemma_with_element_has_element(old(self)@, id@);
            lemma_element_index(present, id@);
            lemma_param_index(present[e as int].params, name@);
        }
        let p = find_param(&self.elements[e].params, name);
        let ghost param = ParamView { name: name@, value: value@ };
        if p < self.elements[e].params.len() {
            self.elements[e].params[p].value = value.to_owned();
            assert(self.elements@[e as int]@.params =~= present[e as int].params.update(
                p as int,
                param,
            ));
        } else {
            self.elements[e].params.push(Param { name: name.to_owned(), value: value.to_owned() });
            assert(self.elements@[e as int]@.params =~= present[e as int].params.push(param));
        }
        proof {
            if old(self).wf() {
                lemma_with_entry_keeps_well_formed(old(self)@, id@, name@, value@);
            }
        }
    }
}

} // verus!
