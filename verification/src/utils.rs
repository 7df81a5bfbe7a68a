//! Text helpers shared by the renderers.

use vstd::prelude::*;
use vstd::string::*;

verus! {

/// `String::push`: the string afterwards is the string before with the
/// character `c` appended.
pub assume_specification[ String::push ](s: &mut String, c: char)
    ensures
        final(s)@ == old(s)@.push(c),
;

/// What `str::to_uppercase` returns for a string with these characters.
pub uninterp spec fn uppercase_of(s: Seq<char>) -> Seq<char>;

/// Calls `str::to_uppercase`. Nothing is proved of the call: the contract
/// gives its result the name `uppercase_of`, which claims that the result
/// depends on the characters of `s` alone.
#[verifier::external_body]
pub(crate) fn to_uppercase(s: &str) -> (r: String)
    ensures
        r@ == uppercase_of(s@),
{
    s.to_uppercase()
}

/// The character sequences of a list of strings.
pub open spec fn views(items: Seq<String>) -> Seq<Seq<char>> {
    Seq::new(items.len(), |i: int| items[i]@)
}

/// The parts, with `separator` between each two neighbours.
pub open spec fn joined(parts: Seq<Seq<char>>, separator: Seq<char>) -> Seq<char>
    decreases parts.len(),
{
    if parts.len() == 0 {
        Seq::empty()
    } else if parts.len() == 1 {
        parts[0]
    } else {
        joined(parts.drop_last(), separator) + separator + parts.last()
    }
}

/// `f` applied to every item.
pub open spec fn mapped<T>(items: Seq<T>, f: spec_fn(T) -> Seq<char>) -> Seq<Seq<char>> {
    Seq::new(items.len(), |i: int| f(items[i]))
}

/// The parts, with one line break between each two neighbours.
pub open spec fn joined_lines(parts: Seq<Seq<char>>) -> Seq<char> {
    joined(parts, "\n"@)
}

/// `f` applied to every item, one result per line.
pub open spec fn mapped_lines(items: Seq<Seq<char>>, f: spec_fn(Seq<char>) -> Seq<char>) -> Seq<
    char,
> {
    joined_lines(mapped(items, f))
}

/// Renders every item of `list` with `op` and joins the results with `separator`.
pub(crate) fn map_join<T, Op: Fn(&T) -> String>(
    list: &[T],
    op: Op,
    separator: &str,
    Ghost(f): Ghost<spec_fn(T) -> Seq<char>>,
) -> (r: String)
    requires
        forall|t: &T| op.requires((t,)),
        forall|t: &T, s: String| op.ensures((t,), s) ==> s@ == f(*t),
    ensures
        r@ == joined(mapped(list@, f), separator@),
{
    let ghost parts = mapped(list@, f);
    let mut out = String::new();
    let mut i: usize = 0;
    while i < list.len()
        invariant
            i <= list.len(),
            parts == mapped(list@, f),
            out@ == joined(parts.take(i as int), separator@),
            forall|t: &T| op.requires((t,)),
            forall|t: &T, s: String| op.ensures((t,), s) ==> s@ == f(*t),
        decreases list.len() - i,
    {
        let part = op(&list[i]);
        proof {
            assert(parts.take(i + 1).drop_last() =~= parts.take(i as int));
            assert(parts.take(i + 1).last() == part@);
        }
        if i > 0 {
            out.append(separator);
        }
        out.append(part.as_str());
        proof {
            if i == 0 {
                assert(out@ =~= part@);
            }
        }
        i += 1;
    }
    proof {
        assert(parts.take(list@.len() as int) =~= parts);
    }
    out
}

/// Renders every string of `list` with `op` and joins the results with
/// `separator`.
pub(crate) fn map_with_separator<Op: Fn(&String) -> String>(
    list: &[String],
    op: Op,
    separator: &str,
    Ghost(f): Ghost<spec_fn(Seq<char>) -> Seq<char>>,
) -> (r: String)
    requires
        forall|s: &String| op.requires((s,)),
        forall|s: &String, t: String| op.ensures((s,), t) ==> t@ == f(s@),
    ensures
        r@ == joined(mapped(views(list@), f), separator@),
{
    let r = map_join(list, op, separator, Ghost(|s: String| f(s@)));
    proof {
        assert(mapped(list@, |s: String| f(s@)) =~= mapped(views(list@), f));
    }
    r
}

/// Renders every item of `list` with `op` and joins the results with line breaks.
pub(crate) fn map_with_newline<Op: Fn(&String) -> String>(
    list: &[String],
    op: Op,
    Ghost(f): Ghost<spec_fn(Seq<char>) -> Seq<char>>,
) -> (r: String)
    requires
        forall|s: &String| op.requires((s,)),
        forall|s: &String, t: String| op.ensures((s,), t) ==> t@ == f(s@),
    ensures
        r@ == mapped_lines(views(list@), f),
{
    map_with_separator(list, op, "\n", Ghost(f))
}

/// Whether two strings have the same characters.
pub fn same(a: &str, b: &str) -> (r: bool)
    ensures
        r == (a@ == b@),
{
    let a = String::from_str(a);
    let b = String::from_str(b);
    a == b
}

/// `s` without the occurrences of `pattern`, which are found from the left
/// and do not overlap.
pub open spec fn without(s: Seq<char>, pattern: Seq<char>) -> Seq<char>
    decreases s.len(),
{
    if pattern.len() == 0 || s.len() == 0 {
        s
    } else if pattern.is_prefix_of(s) {
        without(s.skip(pattern.len() as int), pattern)
    } else {
        seq![s[0]] + without(s.skip(1), pattern)
    }
}

/// Whether `pattern` stands in `s` at place `i`.
fn stands_at(s: &str, length: usize, i: usize, pattern: &str, width: usize) -> (r: bool)
    requires
        length == s@.len(),
        width == pattern@.len(),
        i <= length,
    ensures
        r == pattern@.is_prefix_of(s@.skip(i as int)),
{
    if width > length - i {
        return false;
    }
    let mut k: usize = 0;
    while k < width
        invariant
            length == s@.len(),
            width == pattern@.len(),
            i + width <= length,
            k <= width,
            forall|h: int| 0 <= h < k ==> pattern@[h] == s@[i + h],
        decreases width - k,
    {
        if pattern.get_char(k) != s.get_char(i + k) {
            proof {
                assert(s@.skip(i as int)[k as int] == s@[i + k]);
            }
            return false;
        }
        k += 1;
    }
    proof {
        assert(pattern@ =~= s@.skip(i as int).subrange(0, width as int));
    }
    true
}

/// Removes every occurrence of `pattern` from `s`.
pub fn remove_all(s: &str, pattern: &str) -> (r: String)
    ensures
        r@ == without(s@, pattern@),
{
    let length = s.unicode_len();
    let width = pattern.unicode_len();
    if width == 0 {
        return String::from_str(s);
    }
    let mut out = String::new();
    let mut i: usize = 0;
    proof {
        assert(s@.skip(0) =~= s@);
        assert(out@ + without(s@.skip(0), pattern@) =~= without(s@, pattern@));
    }
    while i < length
        invariant
            length == s@.len(),
            width == pattern@.len(),
            width > 0,
            i <= length,
            out@ + without(s@.skip(i as int), pattern@) == without(s@, pattern@),
        decreases length - i,
    {
        let ghost rest = s@.skip(i as int);
        if stands_at(s, length, i, pattern, width) {
            proof {
                assert(rest.skip(width as int) =~= s@.skip(i + width));
            }
            i += width;
        } else {
            let c = s.get_char(i);
            let ghost before = out@;
            out.push(c);
            proof {
                assert(rest.skip(1) =~= s@.skip(i + 1));
                assert(rest[0] == c);
                assert(out@ + without(s@.skip(i + 1), pattern@) =~= before + (seq![c] + without(
                    s@.skip(i + 1),
                    pattern@,
                )));
            }
            i += 1;
        }
    }
    proof {
        assert(s@.skip(length as int) =~= Seq::<char>::empty());
        assert(out@ + Seq::<char>::empty() =~= out@);
    }
    out
}

/// Appends a copy of `s` to `list`.
pub fn push_copy(list: &mut Vec<String>, s: &String)
    ensures
        final(list)@.len() == old(list)@.len() + 1,
        final(list)@ == old(list)@.push(final(list)@.last()),
        final(list)@.last()@ == s@,
        views(final(list)@) == views(old(list)@).push(s@),
{
    list.push(s.clone());
    proof {
        assert(views(list@) =~= views(old(list)@).push(s@));
    }
}

/// Appends copies of the strings of `more` to `all`.
fn extend_with(all: &mut Vec<String>, more: &[String])
    ensures
        views(final(all)@) == views(old(all)@) + views(more@),
{
    let ghost before = all@;
    let mut i: usize = 0;
    while i < more.len()
        invariant
            i <= more.len(),
            all@ == before + more@.take(i as int),
        decreases more.len() - i,
    {
        all.push(more[i].clone());
        proof {
            assert(all@ =~= before + more@.take(i + 1));
        }
        i += 1;
    }
    proof {
        assert(more@.take(more@.len() as int) =~= more@);
        assert(views(all@) =~= views(before) + views(more@));
    }
}

/// The lists one after another, as one list.
pub(crate) fn flatten(first: &[String], second: &[String], third: &[String]) -> (all: Vec<String>)
    ensures
        views(all@) == views(first@) + views(second@) + views(third@),
{
    let mut all: Vec<String> = Vec::new();
    extend_with(&mut all, first);
    extend_with(&mut all, second);
    extend_with(&mut all, third);
    proof {
        assert(views(all@) =~= views(first@) + views(second@) + views(third@));
    }
    all
}

/// An ASCII capital letter.
pub open spec fn is_capital(c: char) -> bool {
    'A' <= c && c <= 'Z'
}

/// The small letter of an ASCII capital; any other character unchanged.
pub open spec fn small_of(c: char) -> char {
    if is_capital(c) {
        ((c as u8) + 32) as char
    } else {
        c
    }
}

fn to_small(c: char) -> (r: char)
    ensures
        r == small_of(c),
{
    if 'A' <= c && c <= 'Z' {
        let b: u8 = c as u8;
        (b + 32) as char
    } else {
        c
    }
}

/// What one character of a name contributes to its snake-case form: a capital
/// becomes its small letter, after an underscore unless it opens the name.
pub open spec fn snake_piece(c: char, first: bool) -> Seq<char> {
    if is_capital(c) && !first {
        seq!['_', small_of(c)]
    } else {
        seq![small_of(c)]
    }
}

/// The snake-case form of a camel-case name.
pub open spec fn snake_case_text(s: Seq<char>) -> Seq<char>
    decreases s.len(),
{
    if s.len() == 0 {
        Seq::empty()
    } else {
        snake_case_text(s.drop_last()) + snake_piece(s.last(), s.len() == 1)
    }
}

/// Turns a camel-case name into snake case: `AvmMini` becomes `avm_mini`.
pub fn snake_case(input: &str) -> (r: String)
    ensures
        r@ == snake_case_text(input@),
{
    let n = input.unicode_len();
    let mut out = String::new();
    let mut i: usize = 0;
    while i < n
        invariant
            n == input@.len(),
            i <= n,
            out@ == snake_case_text(input@.take(i as int)),
        decreases n - i,
    {
        let c = input.get_char(i);
        proof {
            assert(input@.take(i + 1).drop_last() =~= input@.take(i as int));
        }
        if 'A' <= c && c <= 'Z' && i > 0 {
            out.push('_');
        }
        out.push(to_small(c));
        proof {
            assert(out@ =~= snake_case_text(input@.take(i as int)) + snake_piece(c, i == 0));
        }
        i += 1;
    }
    proof {
        assert(input@.take(n as int) =~= input@);
    }
    out
}

/// The character of a decimal digit.
pub open spec fn digit_char(d: nat) -> char
    recommends
        d < 10,
{
    (48 + d) as char
}

/// A number written in decimal, without leading zeros.
pub open spec fn decimal_text(n: nat) -> Seq<char>
    decreases n,
{
    if n < 10 {
        seq![digit_char(n)]
    } else {
        decimal_text(n / 10).push(digit_char(n % 10))
    }
}

/// Writes `n` in decimal.
pub fn decimal(n: u128) -> (r: String)
    ensures
        r@ == decimal_text(n as nat),
    decreases n,
{
    let d: u8 = (n % 10) as u8;
    let c: char = (48u8 + d) as char;
    if n < 10 {
        let mut out = String::new();
        out.push(c);
        assert(out@ =~= seq![digit_char(n as nat)]);
        out
    } else {
        let mut out = decimal(n / 10);
        out.push(c);
        out
    }
}

/// The line that imports the header of one relation of the circuit `name`.
pub open spec fn relation_import_text(name: Seq<char>, relation: Seq<char>) -> Seq<char> {
    "#include \"barretenberg/relations/generated/"@ + name + "/"@ + relation + ".hpp\""@
}

/// Renders the line that imports the header of one relation.
pub fn relation_import(name: &str, relation: &str) -> (r: String)
    ensures
        r@ == relation_import_text(name@, relation@),
{
    let mut out = String::from_str("#include \"barretenberg/relations/generated/");
    out.append(name);
    out.append("/");
    out.append(relation);
    out.append(".hpp\"");
    out
}

/// One import line for every relation, lookup and grand product, in that order.
pub open spec fn relations_imports_text(
    name: Seq<char>,
    relations: Seq<Seq<char>>,
    lookups: Seq<Seq<char>>,
    grand_products: Seq<Seq<char>>,
) -> Seq<char> {
    mapped_lines(
        relations + lookups + grand_products,
        |relation: Seq<char>| relation_import_text(name, relation),
    )
}

/// Renders the import lines of all the relation headers of a circuit.
pub fn get_relations_imports(
    name: &str,
    relations: &[String],
    lookups: &[String],
    grand_products: &[String],
) -> (r: String)
    ensures
        r@ == relations_imports_text(
            name@,
            views(relations@),
            views(lookups@),
            views(grand_products@),
        ),
{
    let all = flatten(relations, lookups, grand_products);
    let transformation = |relation: &String| -> (line: String)
        ensures
            line@ == relation_import_text(name@, relation@),
        { relation_import(name, relation.as_str()) };
    map_with_newline(
        all.as_slice(),
        transformation,
        Ghost(|relation: Seq<char>| relation_import_text(name@, relation)),
    )
}

} // verus!
