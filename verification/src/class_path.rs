//! Dotted class paths such as `Gallop.HttpHelper` and the class lookups
//! that the host runtime is asked to perform for them.
use vstd::prelude::*;
use crate::decimal::push_char;

verus! {

/// The pieces of `s` between occurrences of `sep`, as `str::split` yields
/// them: one more piece than there are separators, empty pieces included.
pub open spec fn split_on(s: Seq<char>, sep: char) -> Seq<Seq<char>>
    decreases s.len(),
{
    if s.len() == 0 {
        seq![Seq::<char>::empty()]
    } else {
        let prev = split_on(s.drop_last(), sep);
        if s.last() == sep {
            prev.push(Seq::<char>::empty())
        } else {
            prev.update(prev.len() - 1, prev.last().push(s.last()))
        }
    }
}

/// The pieces glued back together with `sep` between neighbours.
pub open spec fn join_with(parts: Seq<Seq<char>>, sep: char) -> Seq<char>
    decreases parts.len(),
{
    if parts.len() == 0 {
        Seq::<char>::empty()
    } else if parts.len() == 1 {
        parts[0]
    } else {
        join_with(parts.drop_last(), sep) + seq![sep] + parts.last()
    }
}

proof fn lemma_split_nonempty(s: Seq<char>, sep: char)
    ensures
        split_on(s, sep).len() >= 1,
    decreases s.len(),
{
    if s.len() > 0 {
        lemma_split_nonempty(s.drop_last(), sep);
    }
}

proof fn lemma_join_extend_last(parts: Seq<Seq<char>>, sep: char, c: char)
    requires
        parts.len() >= 1,
    ensures
        join_with(parts.update(parts.len() - 1, parts.last().push(c)), sep) == join_with(
            parts,
            sep,
        ).push(c),
{
    let q = parts.update(parts.len() - 1, parts.last().push(c));
    if parts.len() == 1 {
        assert(q[0] == parts[0].push(c));
    } else {
        assert(q.drop_last() =~= parts.drop_last());
        assert(q.last() == parts.last().push(c));
        assert(join_with(q, sep) =~= join_with(parts, sep).push(c));
    }
}

/// Splitting a path on a separator and joining the pieces with the same
/// separator gives the path back, and no piece contains the separator.
pub proof fn lemma_split_join(s: Seq<char>, sep: char)
    ensures
        join_with(split_on(s, sep), sep) == s,
        forall|i: int|
            0 <= i < split_on(s, sep).len() ==> !(#[trigger] split_on(s, sep)[i]).contains(sep),
    decreases s.len(),
{
    if s.len() == 0 {
        assert(split_on(s, sep) =~= seq![Seq::<char>::empty()]);
        assert(s =~= Seq::<char>::empty());
    } else {
        let t = s.drop_last();
        let c = s.last();
        lemma_split_join(t, sep);
        lemma_split_nonempty(t, sep);
        let prev = split_on(t, sep);
        let cur = split_on(s, sep);
        if c == sep {
            assert(cur == prev.push(Seq::<char>::empty()));
            assert(cur.drop_last() =~= prev);
            assert(join_with(cur, sep) =~= t + seq![sep] + Seq::<char>::empty());
            assert(t + seq![sep] + Seq::<char>::empty() =~= s);
            assert forall|i: int| 0 <= i < cur.len() implies !(#[trigger] cur[i]).contains(sep) by {
                if i < prev.len() {
                    assert(cur[i] == prev[i]);
                } else {
                    assert(cur[i] =~= Seq::<char>::empty());
                }
            }
        } else {
            lemma_join_extend_last(prev, sep, c);
            assert(t.push(c) =~= s);
            assert forall|i: int| 0 <= i < cur.len() implies !(#[trigger] cur[i]).contains(sep) by {
                if i < prev.len() - 1 {
                    assert(cur[i] == prev[i]);
                } else {
                    let last = prev.last();
                    assert(cur[i] == last.push(c));
                    assert(!last.contains(sep));
                    if cur[i].contains(sep) {
                        let j = choose|j: int| 0 <= j < cur[i].len() && cur[i][j] == sep;
                        if j < last.len() {
                            assert(last[j] == sep);
                        }
                    }
                }
            }
        }
    }
}

/// A path that holds the separator splits into at least two pieces.
proof fn lemma_split_len_with_sep(s: Seq<char>, sep: char)
    requires
        s.contains(sep),
    ensures
        split_on(s, sep).len() >= 2,
    decreases s.len(),
{
    let t = s.drop_last();
    lemma_split_nonempty(t, sep);
    if s.last() != sep {
        let j = choose|j: int| 0 <= j < s.len() && s[j] == sep;
        assert(t[j] == sep);
        lemma_split_len_with_sep(t, sep);
    }
}

/// Appending text free of the separator only lengthens the last piece.
pub proof fn lemma_split_append_free(s: Seq<char>, t: Seq<char>, sep: char)
    requires
        !t.contains(sep),
    ensures
        split_on(s + t, sep) == split_on(s, sep).update(
            split_on(s, sep).len() - 1,
            split_on(s, sep).last() + t,
        ),
    decreases t.len(),
{
    lemma_split_nonempty(s, sep);
    let p = split_on(s, sep);
    if t.len() == 0 {
        assert(s + t =~= s);
        assert(p.last() + t =~= p.last());
        assert(p.update(p.len() - 1, p.last() + t) =~= p);
    } else {
        let t0 = t.drop_last();
        let c = t.last();
        assert(!t0.contains(sep)) by {
            if t0.contains(sep) {
                let j = choose|j: int| 0 <= j < t0.len() && t0[j] == sep;
                assert(t[j] == sep);
            }
        }
        assert(c != sep) by {
            assert(t[t.len() - 1] == c);
        }
        lemma_split_append_free(s, t0, sep);
        assert((s + t).drop_last() =~= s + t0);
        assert((s + t).last() == c);
        let q = split_on(s + t0, sep);
        assert(q == p.update(p.len() - 1, p.last() + t0));
        assert(q.last() == p.last() + t0);
        assert(q.last().push(c) =~= p.last() + t);
        assert(split_on(s + t, sep) =~= p.update(p.len() - 1, p.last() + t));
    }
}

/// Where the host runtime finds a class: an assembly image, a namespace,
/// a class in that namespace and then, one after another, nested classes.
pub struct ClassLookup {
    pub image: String,
    pub namespace: String,
    pub class_name: String,
    pub nested: Vec<String>,
}

/// The names of the nested classes, as text.
pub open spec fn string_views(v: Seq<String>) -> Seq<Seq<char>> {
    v.map_values(|s: String| s@)
}

/// A class lookup as text.
#[verifier::ext_equal]
pub struct LookupModel {
    pub image: Seq<char>,
    pub namespace: Seq<char>,
    pub class_name: Seq<char>,
    pub nested: Seq<Seq<char>>,
}

impl View for ClassLookup {
    type V = LookupModel;

    open spec fn view(&self) -> LookupModel {
        LookupModel {
            image: self.image@,
            namespace: self.namespace@,
            class_name: self.class_name@,
            nested: string_views(self.nested@),
        }
    }
}

/// The lookup of dotted `path` in assembly `image`: the first piece of the
/// path is the namespace, the second the class, the rest nested classes.
pub open spec fn path_lookup(image: Seq<char>, path: Seq<char>) -> LookupModel {
    let parts = split_on(path, '.');
    LookupModel { image, namespace: parts[0], class_name: parts[1], nested: parts.skip(2) }
}

/// The lookup of class `class_name` in namespace `namespace` of `image`.
pub open spec fn namespace_lookup(image: Seq<char>, namespace: Seq<char>, class_name: Seq<char>) -> LookupModel {
    LookupModel { image, namespace, class_name, nested: Seq::<Seq<char>>::empty() }
}

/// Splits `text` on `sep` the way `str::split` does.
pub fn split_text(text: &str, sep: char) -> (parts: Vec<String>)
    ensures
        string_views(parts@) == split_on(text@, sep),
{
    let len = text.unicode_len();
    let mut parts: Vec<String> = Vec::new();
    let mut current = String::new();
    let mut i: usize = 0;
    while i < len
        invariant
            len == text@.len(),
            i <= len,
            string_views(parts@).push(current@) == split_on(text@.take(i as int), sep),
        decreases len - i,
    {
        let c = text.get_char(i);
        let ghost before = string_views(parts@).push(current@);
        assert(text@.take(i + 1).drop_last() =~= text@.take(i as int));
        assert(text@.take(i + 1).last() == c);
        if c == sep {
            let finished = current;
            parts.push(finished);
            current = String::new();
            assert(string_views(parts@) =~= before);
            assert(string_views(parts@).push(current@) =~= before.push(Seq::<char>::empty()));
        } else {
            push_char(&mut current, c);
            assert(string_views(parts@).push(current@) =~= before.update(
                before.len() - 1,
                before.last().push(c),
            ));
        }
        i = i + 1;
    }
    parts.push(current);
    assert(text@.take(len as int) =~= text@);
    assert(string_views(parts@) =~= split_on(text@, sep));
    parts
}

/// The lookup that `image` and dotted `path` describe: the first piece of
/// the path is the namespace, the second the class, the rest nested
/// classes. A path without a dot names no class (the lookup panics there).
pub fn get_class_from_image(image: &str, path: &str) -> (r: ClassLookup)
    requires
        path@.contains('.'),
    ensures
        r@ == path_lookup(image@, path@),
{
    proof {
        lemma_split_len_with_sep(path@, '.');
    }
    let mut parts = split_text(path, '.');
    let ghost all = string_views(parts@);
    let namespace = parts.remove(0);
    let class_name = parts.remove(0);
    assert(string_views(parts@) =~= all.skip(2));
    let r = ClassLookup { image: String::from_str(image), namespace, class_name, nested: parts };
    assert(r@ =~= path_lookup(image@, path@));
    r
}

/// The lookup for a class given by namespace and name, with no nesting.
pub fn get_class_from_namespace(image: &str, namespace: &str, classname: &str) -> (r: ClassLookup)
    ensures
        r@ == namespace_lookup(image@, namespace@, classname@),
{
    let r = ClassLookup {
        image: String::from_str(image),
        namespace: String::from_str(namespace),
        class_name: String::from_str(classname),
        nested: Vec::new(),
    };
    assert(r@ =~= namespace_lookup(image@, namespace@, classname@));
    r
}

/// The lookup for a dotted path in the game's `umamusume` assembly: the
/// same lookup as `get_class_from_image("umamusume", path)`.
pub fn get_class(path: &str) -> (r: ClassLookup)
    requires
        path@.contains('.'),
    ensures
        r@ == path_lookup("umamusume"@, path@),
{
    get_class_from_image("umamusume", path)
}

/// The path of a class in the game's `Gallop` namespace.
pub open spec fn gallop_path(class_name: Seq<char>) -> Seq<char> {
    "Gallop."@ + class_name
}

/// The lookup for `Gallop.<class_name>` in the `umamusume` assembly.
/// A name without dots is a class directly in the `Gallop` namespace.
pub fn get_gallop_class(class_name: &str) -> (r: ClassLookup)
    ensures
        r@ == path_lookup("umamusume"@, gallop_path(class_name@)),
        !class_name@.contains('.') ==> r@ == namespace_lookup(
            "umamusume"@,
            "Gallop"@,
            class_name@,
        ),
{
    let mut path = String::from_str("Gallop.");
    path.append(class_name);
    proof {
        reveal_strlit("Gallop.");
        reveal_strlit("Gallop");
        assert(path@ == gallop_path(class_name@));
        assert(path@[6] == '.');
    }
    let r = get_class(path.as_str());
    proof {
        if !class_name@.contains('.') {
            lemma_gallop_split(class_name@);
            let parts = split_on(gallop_path(class_name@), '.');
            assert(parts.skip(2) =~= Seq::<Seq<char>>::empty());
            assert(r@ =~= namespace_lookup("umamusume"@, "Gallop"@, class_name@));
        }
    }
    r
}

/// How `Gallop.<name>` splits when the name has no dot.
pub proof fn lemma_gallop_split(name: Seq<char>)
    requires
        !name.contains('.'),
    ensures
        split_on(gallop_path(name), '.') == seq!["Gallop"@, name],
{
    reveal_strlit("Gallop.");
    reveal_strlit("Gallop");
    let prefix = "Gallop."@;
    let word = "Gallop"@;
    assert(!word.contains('.')) by {
        if word.contains('.') {
            let j = choose|j: int| 0 <= j < word.len() && word[j] == '.';
            assert(word[j] != '.');
        }
    }
    lemma_split_append_free(Seq::<char>::empty(), word, '.');
    assert(Seq::<char>::empty() + word =~= word);
    assert(split_on(Seq::<char>::empty(), '.') =~= seq![Seq::<char>::empty()]);
    assert(split_on(word, '.') =~= seq![word]);
    assert(prefix.drop_last() =~= word);
    assert(split_on(prefix, '.') =~= seq![word, Seq::<char>::empty()]);
    lemma_split_append_free(prefix, name, '.');
    assert(split_on(gallop_path(name), '.') =~= seq![word, name]);
}

} // verus!
