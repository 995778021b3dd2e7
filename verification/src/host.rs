//! Requests to the game's IL2CPP runtime. The runtime is reached through
//! the host's function table; these functions decide what to ask it for,
//! and the caller makes the calls.
use vstd::prelude::*;
use crate::class_path::{get_class_from_namespace, namespace_lookup, ClassLookup};
use crate::utf16::{decode_utf16_lossy, lemma_lossy_without_surrogates, no_surrogates, utf16_lossy};

verus! {

/// A class that the runtime has resolved, by address.
#[derive(Clone, Copy, PartialEq, Eq, Structural, Debug)]
pub struct ClassHandle {
    pub addr: usize,
}

/// A managed object of the runtime, by address.
#[derive(Clone, Copy, PartialEq, Eq, Structural, Debug)]
pub struct ObjectHandle {
    pub addr: usize,
}

/// The name of the getter method of property `property`.
pub open spec fn getter_of(property: Seq<char>) -> Seq<char> {
    "get_"@ + property
}

/// The getter method that reading property `property` calls.
pub fn getter_name(property: &str) -> (name: String)
    ensures
        name@ == getter_of(property@),
{
    let mut name = String::from_str("get_");
    name.append(property);
    name
}

/// A getter's name is `get_` followed by the property's name unchanged,
/// character for character.
pub proof fn lemma_getter_name_spelling(property: Seq<char>)
    ensures
        getter_of(property).len() == property.len() + 4,
        getter_of(property).subrange(0, 4) == seq!['g', 'e', 't', '_'],
        getter_of(property).subrange(4, property.len() + 4int) == property,
        forall|i: int| 0 <= i < property.len() ==> getter_of(property)[i + 4] == property[i],
{
    reveal_strlit("get_");
    let g = getter_of(property);
    assert(g.subrange(0, 4) =~= seq!['g', 'e', 't', '_']);
    assert(g.subrange(4, property.len() + 4int) =~= property);
}

/// A property read: call method `getter` (no arguments) of `class` on `this`.
pub struct PropertyRead {
    pub class: ClassHandle,
    pub getter: String,
    pub this: ObjectHandle,
}

/// The read of pointer-valued property `property` of `this`.
pub fn get_pointer(class: ClassHandle, property: &str, this: ObjectHandle) -> (r: PropertyRead)
    ensures
        r.class == class,
        r.getter@ == getter_of(property@),
        r.this == this,
{
    PropertyRead { class, getter: getter_name(property), this }
}

/// The read of object-valued property `property` of `this`; an object is
/// read as a pointer.
pub fn get_object(class: ClassHandle, property: &str, this: ObjectHandle) -> (r: PropertyRead)
    ensures
        r.class == class,
        r.getter@ == getter_of(property@),
        r.this == this,
{
    get_pointer(class, property, this)
}

/// A field read: look up field `field_name` of `class` and read it from `object`.
pub struct FieldRead<C> {
    pub class: C,
    pub field_name: String,
    pub object: ObjectHandle,
}

/// The read of pointer-valued field `field` of `this`.
pub fn get_pointer_field(class: ClassHandle, field: &str, this: ObjectHandle) -> (r: FieldRead<ClassHandle>)
    ensures
        r.class == class,
        r.field_name@ == field@,
        r.object == this,
{
    FieldRead { class, field_name: String::from_str(field), object: this }
}

/// The read of object-valued field `field` of `this`.
pub fn get_object_field(class: ClassHandle, field: &str, this: ObjectHandle) -> (r: FieldRead<ClassHandle>)
    ensures
        r.class == class,
        r.field_name@ == field@,
        r.object == this,
{
    get_pointer_field(class, field, this)
}

/// A `Cute.UI.AtlasReference` object of the game's UI library.
pub struct AtlasReference {
    instance: ObjectHandle,
}

impl View for AtlasReference {
    type V = ObjectHandle;

    closed spec fn view(&self) -> ObjectHandle {
        self.instance
    }
}

impl AtlasReference {
    pub fn new(atlas_reference: ObjectHandle) -> (r: AtlasReference)
        ensures
            r@ == atlas_reference,
    {
        AtlasReference { instance: atlas_reference }
    }

    /// The read of the atlas's `sprites` array, a field of class
    /// `Cute.UI.AtlasReference` in assembly `Cute.UI.Assembly.dll`.
    pub fn get_sprites(&self) -> (r: FieldRead<ClassLookup>)
        ensures
            r.class@ == namespace_lookup("Cute.UI.Assembly.dll"@, "Cute.UI"@, "AtlasReference"@),
            r.field_name@ == "sprites"@,
            r.object == self@,
    {
        let class = get_class_from_namespace("Cute.UI.Assembly.dll", "Cute.UI", "AtlasReference");
        FieldRead { class, field_name: String::from_str("sprites"), object: self.instance }
    }
}

/// A method of a class as the runtime lists it: its name and entry point.
pub struct MethodEntry {
    pub name: String,
    pub pointer: usize,
}

/// The entry point of the `n`-th method (counting from one) named `name`
/// among `methods`, or zero where there are fewer than `n` such methods.
pub open spec fn nth_method_pointer(methods: Seq<MethodEntry>, name: Seq<char>, n: int) -> usize
    decreases methods.len(),
{
    if methods.len() == 0 {
        0
    } else if methods[0].name@ == name {
        if n == 1 {
            methods[0].pointer
        } else {
            nth_method_pointer(methods.drop_first(), name, n - 1)
        }
    } else {
        nth_method_pointer(methods.drop_first(), name, n)
    }
}

/// The method found is the `n`-th of those whose name equals `name`
/// exactly, counting from one, and zero where `n` is not between one and
/// their number: methods whose names merely start with `name`, or differ
/// from it in any other way, are never counted.
pub proof fn lemma_nth_method_is_nth_exact_match(methods: Seq<MethodEntry>, name: Seq<char>, n: int)
    ensures
        ({
            let matches = methods.filter(|m: MethodEntry| m.name@ == name);
            nth_method_pointer(methods, name, n) == if 1 <= n <= matches.len() {
                matches[n - 1].pointer
            } else {
                0
            }
        }),
    decreases methods.len(),
{
    let pred = |m: MethodEntry| m.name@ == name;
    if methods.len() == 0 {
        assert(methods.filter(pred) =~= Seq::<MethodEntry>::empty());
    } else {
        let first = methods[0];
        let rest = methods.drop_first();
        lemma_nth_method_is_nth_exact_match(rest, name, n - 1);
        lemma_nth_method_is_nth_exact_match(rest, name, n);
        assert(methods =~= seq![first] + rest);
        Seq::filter_distributes_over_add(seq![first], rest, pred);
        Seq::<MethodEntry>::empty().lemma_filter_push(first, pred);
        assert(Seq::<MethodEntry>::empty().filter(pred) =~= Seq::<MethodEntry>::empty());
        assert(Seq::<MethodEntry>::empty().push(first) =~= seq![first]);
        let rm = rest.filter(pred);
        if first.name@ == name {
            assert(seq![first].filter(pred) =~= seq![first]);
            assert(methods.filter(pred) =~= seq![first] + rm);
            if 1 < n && n <= rm.len() + 1 {
                assert((seq![first] + rm)[n - 1] == rm[n - 2]);
            }
        } else {
            assert(seq![first].filter(pred) =~= Seq::<MethodEntry>::empty());
            assert(methods.filter(pred) =~= rm);
        }
    }
}

/// A search through a class's methods, one at a time as the runtime hands
/// them out, for the `wanted`-th method named `target`.
pub struct NthMethodSearch {
    pub target: String,
    pub wanted: usize,
    /// How many methods named `target` have gone by.
    pub seen: usize,
}

impl NthMethodSearch {
    pub fn new(target: &str, wanted: usize) -> (s: NthMethodSearch)
        ensures
            s.target@ == target@,
            s.wanted == wanted,
            s.seen == 0,
    {
        NthMethodSearch { target: String::from_str(target), wanted, seen: 0 }
    }

    /// Takes the next method; returns its entry point if it is the one sought.
    pub fn step(&mut self, method_name: &str, pointer: usize) -> (found: Option<usize>)
        requires
            old(self).seen < usize::MAX,
        ensures
            final(self).target == old(self).target,
            final(self).wanted == old(self).wanted,
            if method_name@ == old(self).target@ {
                &&& final(self).seen == old(self).seen + 1
                &&& found == if final(self).seen == old(self).wanted {
                    Some(pointer)
                } else {
                    None
                }
            } else {
                final(self).seen == old(self).seen && found.is_none()
            },
    {
        if self.target == String::from_str(method_name) {
            self.seen = self.seen + 1;
            if self.seen == self.wanted {
                return Some(pointer);
            }
        }
        None
    }
}

/// The entry point of the `n`-th method named `name` in `methods`, the
/// class's methods in the runtime's order; zero where there is none.
pub fn get_nth_method(methods: &[MethodEntry], name: &str, n: usize) -> (pointer: usize)
    ensures
        pointer == nth_method_pointer(methods@, name@, n as int),
{
    let mut search = NthMethodSearch::new(name, n);
    let mut i: usize = 0;
    assert(methods@.skip(0) =~= methods@);
    while i < methods.len()
        invariant
            i <= methods@.len(),
            search.seen <= i,
            search.target@ == name@,
            search.wanted == n,
            nth_method_pointer(methods@, name@, n as int) == nth_method_pointer(
                methods@.skip(i as int),
                name@,
                n - search.seen,
            ),
        decreases methods@.len() - i,
    {
        let ghost rest = methods@.skip(i as int);
        assert(rest[0] == methods@[i as int]);
        assert(rest.drop_first() =~= methods@.skip(i + 1));
        let entry = &methods[i];
        if let Some(p) = search.step(entry.name.as_str(), entry.pointer) {
            return p;
        }
        i = i + 1;
    }
    0
}

/// The text of a managed string, given its UTF-16 code units.
pub fn il2cppstring_as_string(chars: &[u16]) -> (text: String)
    ensures
        text@ == utf16_lossy(chars@),
        no_surrogates(chars@) ==> text@ == chars@.map_values(|u: u16| (u as u32) as char),
{
    proof {
        if no_surrogates(chars@) {
            lemma_lossy_without_surrogates(chars@);
        }
    }
    decode_utf16_lossy(chars)
}

} // verus!
