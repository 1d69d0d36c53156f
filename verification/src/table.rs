//! The string table that a shim carries as its `RT_STRING` resource: sixteen
//! wide strings, the target path in slot `IDS_PATH` and the joined arguments in
//! slot `IDS_ARGS`.
use vstd::prelude::*;

use crate::cstring::{c_content, c_units_from_str, c_units_from_vec, is_c_units, lemma_c_content_nul_free};
use crate::error::BuildError;
use crate::wide::{lemma_utf16_nul, utf16};

verus! {

/// Number of strings in one string-table block.
pub const TABLE_LEN: usize = 16;

/// String id (and table slot) of the shim's target path.
pub const IDS_PATH: u32 = 1;

/// String id (and table slot) of the shim's arguments.
pub const IDS_ARGS: u32 = 2;

/// The arguments joined into one string, one space between two of them.
pub open spec fn joined_by_space(args: Seq<Seq<char>>) -> Seq<char>
    decreases args.len(),
{
    if args.len() == 0 {
        Seq::empty()
    } else if args.len() == 1 {
        args[0]
    } else {
        joined_by_space(args.drop_last()) + seq![' '] + args.last()
    }
}

/// The total length of the texts.
pub open spec fn total_len(args: Seq<Seq<char>>) -> nat
    decreases args.len(),
{
    if args.len() == 0 {
        0
    } else {
        total_len(args.drop_last()) + args.last().len()
    }
}

/// Joining one text gives that text; joining nothing gives the empty text.
pub proof fn lemma_join_single(a: Seq<char>)
    ensures
        joined_by_space(seq![a]) == a,
        joined_by_space(Seq::<Seq<char>>::empty()) == Seq::<char>::empty(),
{
}

/// Joining one more text appends a space and that text.
pub proof fn lemma_join_push(args: Seq<Seq<char>>, a: Seq<char>)
    requires
        args.len() > 0,
    ensures
        joined_by_space(args.push(a)) == joined_by_space(args) + seq![' '] + a,
{
    assert(args.push(a).drop_last() =~= args);
    assert(args.push(a).last() == a);
}

/// Joining two non-empty lists one after the other is joining each and putting a
/// space between the results.
pub proof fn lemma_join_concat(a: Seq<Seq<char>>, b: Seq<Seq<char>>)
    requires
        a.len() > 0,
        b.len() > 0,
    ensures
        joined_by_space(a + b) == joined_by_space(a) + seq![' '] + joined_by_space(b),
    decreases b.len(),
{
    if b.len() == 1 {
        assert(a + b =~= a.push(b[0]));
        lemma_join_push(a, b[0]);
        lemma_join_single(b[0]);
        assert(b =~= seq![b[0]]);
    } else {
        let b0 = b.drop_last();
        let x = b.last();
        lemma_join_concat(a, b0);
        assert(a + b =~= (a + b0).push(x));
        lemma_join_push(a + b0, x);
        assert(b =~= b0.push(x));
        lemma_join_push(b0, x);
        assert(joined_by_space(a + b) =~= joined_by_space(a) + seq![' '] + joined_by_space(b));
    }
}

/// The joined text is as long as all the texts together plus one space between
/// each two of them.
pub proof fn lemma_join_len(args: Seq<Seq<char>>)
    ensures
        args.len() > 0 ==> joined_by_space(args).len() == total_len(args) + args.len() - 1,
        args.len() == 0 ==> joined_by_space(args).len() == 0,
    decreases args.len(),
{
    if args.len() > 1 {
        lemma_join_len(args.drop_last());
    } else if args.len() == 1 {
        assert(args.drop_last() =~= Seq::<Seq<char>>::empty());
        assert(total_len(args.drop_last()) == 0);
        assert(joined_by_space(args) == args[0]);
    }
}

/// Every text stands in the joined text, in order: after the texts before it,
/// each followed by a space.
pub proof fn lemma_join_places(args: Seq<Seq<char>>, i: int)
    requires
        0 <= i < args.len(),
    ensures
        ({
            let at = total_len(args.take(i)) + i;
            &&& at + args[i].len() <= joined_by_space(args).len()
            &&& joined_by_space(args).subrange(at, at + args[i].len()) == args[i]
            &&& i + 1 < args.len() ==> joined_by_space(args)[at + args[i].len()] == ' '
        }),
    decreases args.len(),
{
    let n = args.len();
    let j = joined_by_space(args);
    let at = total_len(args.take(i)) + i;
    if n == 1 {
        assert(args.take(0) =~= Seq::<Seq<char>>::empty());
        lemma_join_single(args[0]);
        assert(args =~= seq![args[0]]);
        assert(j.subrange(0, args[0].len() as int) =~= args[0]);
    } else {
        let init = args.drop_last();
        lemma_join_len(init);
        let ji = joined_by_space(init);
        assert(j == ji + seq![' '] + args.last());
        if i < n - 1 {
            lemma_join_places(init, i);
            assert(init.take(i) =~= args.take(i));
            assert(init[i] == args[i]);
            assert(j.subrange(at, at + args[i].len()) =~= ji.subrange(at, at + args[i].len()));
            if i + 1 < n - 1 {
                assert(j[at + args[i].len()] == ji[at + args[i].len()]);
            } else {
                lemma_join_len(args.take(i + 1));
                assert(args.take(i + 1) =~= init);
                assert(args.take(i + 1).drop_last() =~= args.take(i));
                assert(at + args[i].len() == ji.len());
            }
        } else {
            assert(args.take(i) =~= init);
            lemma_join_len(args);
            assert(j.subrange(at, at + args[i].len()) =~= args.last());
        }
    }
}

/// The character sequences of a list of strings.
pub open spec fn string_views(args: Seq<String>) -> Seq<Seq<char>> {
    args.map_values(|s: String| s@)
}

/// Joins the arguments with one space between two of them.
pub fn join_args(args: &[String]) -> (r: String)
    ensures
        r@ == joined_by_space(string_views(args@)),
        args@.len() > 0 ==> r@.len() == total_len(string_views(args@)) + args@.len() - 1,
        forall|i: int|
            0 <= i < args@.len() ==> r@.subrange(
                total_len(string_views(args@).take(i)) + i,
                total_len(string_views(args@).take(i)) + i + args@[i]@.len(),
            ) == #[trigger] args@[i]@,
{
    let mut r = String::new();
    let n = args.len();
    let ghost views = string_views(args@);
    for i in 0..n
        invariant
            n == args@.len(),
            views == string_views(args@),
            r@ == joined_by_space(views.take(i as int)),
    {
        proof {
            reveal_strlit(" ");
            assert(views.take(i + 1).drop_last() =~= views.take(i as int));
        }
        if i > 0 {
            r.append(" ");
        }
        r.append(args[i].as_str());
        proof {
            if i == 0 {
                assert(r@ =~= views.take(1)[0]);
            }
        }
    }
    assert(views.take(n as int) =~= views);
    proof {
        lemma_join_len(views);
        assert forall|i: int| 0 <= i < args@.len() implies r@.subrange(
            total_len(views.take(i)) + i,
            total_len(views.take(i)) + i + args@[i]@.len(),
        ) == #[trigger] args@[i]@ by {
            lemma_join_places(views, i);
            assert(views[i] == args@[i]@);
        }
    }
    r
}

/// The units that encode one entry: its length plus one (for the nul), the
/// entry, and the nul. The length unit keeps the low 16 bits.
pub open spec fn entry_units(e: Seq<u16>) -> Seq<u16> {
    seq![((e.len() + 1) % 0x10000) as u16] + e + seq![0u16]
}

/// The units that encode a table: its entries, each encoded, one after the other.
pub open spec fn table_units(entries: Seq<Seq<u16>>) -> Seq<u16>
    decreases entries.len(),
{
    if entries.len() == 0 {
        Seq::empty()
    } else {
        entry_units(entries[0]) + table_units(entries.drop_first())
    }
}

/// Encoding one more entry appends its units.
pub proof fn lemma_table_units_push(entries: Seq<Seq<u16>>, e: Seq<u16>)
    ensures
        table_units(entries.push(e)) == table_units(entries) + entry_units(e),
    decreases entries.len(),
{
    if entries.len() == 0 {
        assert(entries.push(e).drop_first() =~= Seq::<Seq<u16>>::empty());
        assert(table_units(Seq::<Seq<u16>>::empty()) == Seq::<u16>::empty());
        assert(entries.push(e)[0] == e);
        assert(table_units(entries) == Seq::<u16>::empty());
        assert(table_units(entries.push(e)) =~= table_units(entries) + entry_units(e));
    } else {
        lemma_table_units_push(entries.drop_first(), e);
        assert(entries.push(e).drop_first() =~= entries.drop_first().push(e));
        assert(table_units(entries.push(e)) =~= table_units(entries) + entry_units(e));
    }
}

/// The string that the Windows string-table reader (`LoadStringW`) finds at
/// `index` in a block: every string is a count unit followed by that many units.
pub open spec fn block_string(units: Seq<u16>, index: nat) -> Option<Seq<u16>>
    decreases index,
{
    if units.len() == 0 {
        None
    } else {
        let n = units[0] as int;
        if units.len() < 1 + n {
            None
        } else if index == 0 {
            Some(units.subrange(1, 1 + n))
        } else {
            block_string(units.subrange(1 + n, units.len() as int), (index - 1) as nat)
        }
    }
}

/// Reading entry `i` of an encoded table gives back that entry with its nul,
/// provided every entry is shorter than the largest count unit.
pub proof fn lemma_block_string_of_table(entries: Seq<Seq<u16>>, i: nat)
    requires
        i < entries.len(),
        forall|k: int| 0 <= k < entries.len() ==> #[trigger] entries[k].len() + 1 < 0x10000,
    ensures
        block_string(table_units(entries), i) == Some(entries[i as int] + seq![0u16]),
    decreases i,
{
    let u = table_units(entries);
    let e = entries[0];
    let rest = entries.drop_first();
    let n: int = e.len() as int + 1;
    assert(entries[0].len() + 1 < 0x10000);
    assert(u == entry_units(e) + table_units(rest));
    assert(u[0] as int == n);
    assert(u.subrange(1, 1 + n) =~= e + seq![0u16]);
    assert(u.subrange(1 + n, u.len() as int) =~= table_units(rest));
    if i > 0 {
        assert forall|k: int| 0 <= k < rest.len() implies #[trigger] rest[k].len() + 1 < 0x10000 by {
            assert(rest[k] == entries[k + 1]);
        }
        lemma_block_string_of_table(rest, (i - 1) as nat);
        assert(rest[i - 1] == entries[i as int]);
    }
}

/// What the builder writes is what the shim loads: in the table built for a
/// target and arguments, the reader finds the target's text at `IDS_PATH` and the
/// joined arguments' text at `IDS_ARGS`, each with its nul, and an empty string
/// (just the nul) in every other slot, provided both texts are shorter than the
/// largest count unit.
pub proof fn lemma_shim_table_reads_back(target: Seq<u16>, args: Seq<Seq<char>>, i: nat)
    requires
        i < TABLE_LEN,
        c_content(target).len() + 1 < 0x10000,
        c_content(utf16(joined_by_space(args))).len() + 1 < 0x10000,
    ensures
        block_string(table_units(shim_table(target, args)), IDS_PATH as nat) == Some(
            c_content(target).push(0),
        ),
        block_string(table_units(shim_table(target, args)), IDS_ARGS as nat) == Some(
            c_content(utf16(joined_by_space(args))).push(0),
        ),
        i != IDS_PATH && i != IDS_ARGS ==> block_string(table_units(shim_table(target, args)), i)
            == Some(seq![0u16]),
{
    let t = shim_table(target, args);
    assert forall|k: int| 0 <= k < t.len() implies #[trigger] t[k].len() + 1 < 0x10000 by {}
    lemma_block_string_of_table(t, IDS_PATH as nat);
    lemma_block_string_of_table(t, IDS_ARGS as nat);
    lemma_block_string_of_table(t, i);
    assert(t[IDS_PATH as int] + seq![0u16] =~= c_content(target).push(0));
    assert(t[IDS_ARGS as int] + seq![0u16] =~= c_content(utf16(joined_by_space(args))).push(0));
    if i != IDS_PATH && i != IDS_ARGS {
        assert(t[i as int] + seq![0u16] =~= seq![0u16]);
    }
}

/// Arguments without the nul character join into a text without it.
pub proof fn lemma_joined_nul_free(args: Seq<Seq<char>>)
    requires
        forall|i: int| 0 <= i < args.len() ==> !(#[trigger] args[i]).contains('\0'),
    ensures
        !joined_by_space(args).contains('\0'),
    decreases args.len(),
{
    if args.len() > 1 {
        let init = args.drop_last();
        assert forall|i: int| 0 <= i < init.len() implies !(#[trigger] init[i]).contains('\0') by {
            assert(init[i] == args[i]);
        }
        lemma_joined_nul_free(init);
        let j = joined_by_space(args);
        let a = joined_by_space(init);
        let b = args.last();
        assert(!args[args.len() - 1].contains('\0'));
        if j.contains('\0') {
            let k = choose|k: int| 0 <= k < j.len() && j[k] == '\0';
            if k < a.len() {
                assert(a[k] == '\0');
            } else if k == a.len() {
                assert(j[k] == ' ');
            } else {
                assert(b[k - a.len() - 1] == '\0');
            }
        }
    } else if args.len() == 1 {
        assert(!args[0].contains('\0'));
    }
}

/// A shim table can always be built for a target path without nul units and
/// arguments without nul characters.
pub proof fn lemma_shim_table_builds(target: Seq<u16>, args: Seq<Seq<char>>)
    requires
        !target.contains(0),
        forall|i: int| 0 <= i < args.len() ==> !(#[trigger] args[i]).contains('\0'),
    ensures
        is_c_units(target),
        is_c_units(utf16(joined_by_space(args))),
        c_content(target) == target,
{
    lemma_joined_nul_free(args);
    lemma_utf16_nul(joined_by_space(args));
    let u = utf16(joined_by_space(args));
    assert forall|i: int| 0 <= i < target.len() - 1 implies #[trigger] target[i] != 0 by {
        if target[i] == 0 {
            assert(target.contains(0));
        }
    }
    assert forall|i: int| 0 <= i < u.len() - 1 implies #[trigger] u[i] != 0 by {
        if u[i] == 0 {
            assert(u.contains(0));
        }
    }
    if target.len() > 0 && target.last() == 0 {
        assert(target.contains(0));
    }
}

/// Appends all units of `s` to `out`.
fn push_units(out: &mut Vec<u16>, s: &[u16])
    ensures
        final(out)@ == old(out)@ + s@,
{
    let n = s.len();
    let ghost start = out@;
    for i in 0..n
        invariant
            n == s@.len(),
            out@ == start + s@.take(i as int),
    {
        out.push(s[i]);
        assert(s@.take(i + 1) =~= s@.take(i as int).push(s@[i as int]));
    }
    assert(s@.take(n as int) =~= s@);
}

/// A table of sixteen wide strings, none of which holds a nul.
pub struct StringTable {
    entries: Vec<Vec<u16>>,
}

impl View for StringTable {
    type V = Seq<Seq<u16>>;

    closed spec fn view(&self) -> Seq<Seq<u16>> {
        self.entries@.map_values(|e: Vec<u16>| e@)
    }
}

/// The table with every slot empty.
pub open spec fn empty_table() -> Seq<Seq<u16>> {
    Seq::new(TABLE_LEN as nat, |i: int| Seq::<u16>::empty())
}

/// The table of a shim for `target` started with `args`.
pub open spec fn shim_table(target: Seq<u16>, args: Seq<Seq<char>>) -> Seq<Seq<u16>> {
    empty_table().update(IDS_PATH as int, c_content(target)).update(
        IDS_ARGS as int,
        c_content(utf16(joined_by_space(args))),
    )
}

impl StringTable {
    /// Sixteen slots, none holding a nul.
    pub open spec fn wf(&self) -> bool {
        &&& self@.len() == TABLE_LEN
        &&& forall|i: int| 0 <= i < TABLE_LEN ==> !(#[trigger] self@[i]).contains(0)
    }

    /// Builds the table of a shim for `target` started with `args`.
    pub fn new(target: Vec<u16>, args: &[String]) -> (r: Result<Self, BuildError>)
        ensures
            r is Ok <==> is_c_units(target@) && is_c_units(utf16(joined_by_space(string_views(args@)))),
            r matches Ok(t) ==> t.wf() && t@ == shim_table(target@, string_views(args@)),
            r matches Err(e) ==> e is ContainsNul,
    {
        let mut this = Self::default();
        match this.set_target(target) {
            Ok(()) => {},
            Err(e) => return Err(e),
        }
        match this.set_args(args) {
            Ok(()) => {},
            Err(e) => return Err(e),
        }
        Ok(this)
    }

    /// Puts `path` into the target slot.
    pub fn set_target(&mut self, path: Vec<u16>) -> (r: Result<(), BuildError>)
        requires
            old(self).wf(),
        ensures
            final(self).wf(),
            r is Ok <==> is_c_units(path@),
            r is Ok ==> final(self)@ == old(self)@.update(IDS_PATH as int, c_content(path@)),
            r is Err ==> final(self)@ == old(self)@,
            r matches Err(e) ==> e is ContainsNul,
    {
        let ghost p = path@;
        let c_target = match c_units_from_vec(path) {
            Ok(c) => c,
            Err(e) => return Err(BuildError::ContainsNul(e)),
        };
        proof {
            lemma_c_content_nul_free(p);
        }
        self.entries.set(IDS_PATH as usize, c_target);
        proof {
            assert(self@ =~= old(self)@.update(IDS_PATH as int, c_content(p)));
        }
        Ok(())
    }

    /// Puts the arguments, joined with spaces, into the arguments slot.
    pub fn set_args(&mut self, args: &[String]) -> (r: Result<(), BuildError>)
        requires
            old(self).wf(),
        ensures
            final(self).wf(),
            r is Ok <==> is_c_units(utf16(joined_by_space(string_views(args@)))),
            r is Ok ==> final(self)@ == old(self)@.update(
                IDS_ARGS as int,
                c_content(utf16(joined_by_space(string_views(args@)))),
            ),
            r is Err ==> final(self)@ == old(self)@,
            r matches Err(e) ==> e is ContainsNul,
    {
        let joined = join_args(args);
        let c_args = match c_units_from_str(joined.as_str()) {
            Ok(c) => c,
            Err(e) => return Err(BuildError::ContainsNul(e)),
        };
        proof {
            lemma_c_content_nul_free(utf16(joined@));
        }
        self.entries.set(IDS_ARGS as usize, c_args);
        proof {
            assert(self@ =~= old(self)@.update(IDS_ARGS as int, c_content(utf16(joined@))));
        }
        Ok(())
    }

    /// The string in slot `index`.
    pub fn get(&self, index: usize) -> (r: &[u16])
        requires
            self.wf(),
            index < TABLE_LEN,
        ensures
            r@ == self@[index as int],
    {
        self.entries[index].as_slice()
    }

    /// The resource data: every entry as its length plus one, its units and a nul.
    pub fn get_buffer(&self) -> (r: Vec<u16>)
        ensures
            r@ == table_units(self@),
    {
        let mut table_buffer: Vec<u16> = Vec::new();
        let n = self.entries.len();
        for i in 0..n
            invariant
                n == self@.len(),
                table_buffer@ == table_units(self@.take(i as int)),
        {
            let entry = &self.entries[i];
            let count = (entry.len() as u16).wrapping_add(1);
            let ghost len = entry.len();
            assert((len as u16) == len % 0x10000) by (bit_vector);
            table_buffer.push(count);
            push_units(&mut table_buffer, entry.as_slice());
            table_buffer.push(0);
            proof {
                lemma_table_units_push(self@.take(i as int), self@[i as int]);
                assert(self@.take(i + 1) =~= self@.take(i as int).push(self@[i as int]));
                assert(table_buffer@ =~= table_units(self@.take(i as int)) + entry_units(
                    self@[i as int],
                ));
            }
        }
        assert(self@.take(n as int) =~= self@);
        table_buffer
    }
}

impl Default for StringTable {
    fn default() -> (r: Self)
        ensures
            r.wf(),
            r@ == empty_table(),
    {
        let mut entries: Vec<Vec<u16>> = Vec::new();
        for i in 0..TABLE_LEN
            invariant
                entries@.len() == i,
                forall|k: int| 0 <= k < i ==> (#[trigger] entries@[k])@ == Seq::<u16>::empty(),
        {
            entries.push(Vec::new());
        }
        let r = StringTable { entries };
        assert(r@ =~= empty_table());
        r
    }
}

} // verus!
