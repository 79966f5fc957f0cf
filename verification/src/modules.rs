//! The set of Prolog source modules merged into the shared prelude of every
//! interpreter run.  Modules can be enabled and disabled individually; the
//! table is kept in ascending name order, so the merged prelude is the
//! sources of the enabled modules, in name order, separated by blank lines.

use vstd::prelude::*;

verus! {

/// One named module: its name and its source text.
#[derive(Debug)]
pub struct ModuleDef {
    pub name: String,
    pub source: String,
}

/// The module table: every module this build knows, and which of them are
/// currently enabled.
#[derive(Debug)]
pub struct PrologModules {
    pub available_modules: Vec<ModuleDef>,
    pub enabled_modules: Vec<String>,
}

/// The views of a name list.
pub open spec fn name_views(names: Seq<String>) -> Seq<Seq<char>> {
    names.map_values(|s: String| s@)
}

/// `names` with every occurrence of `gone` removed, order kept.
pub open spec fn names_without(names: Seq<Seq<char>>, gone: Seq<char>) -> Seq<Seq<char>>
    decreases names.len(),
{
    if names.len() == 0 {
        Seq::empty()
    } else if names.last() == gone {
        names_without(names.drop_last(), gone)
    } else {
        names_without(names.drop_last(), gone).push(names.last())
    }
}

/// Lexicographic order on names by character code point, from position `i`
/// on; this is also the byte order of their UTF-8 encodings, the order the
/// standard ordered map iterates in.
pub open spec fn lex_lt_from(a: Seq<char>, b: Seq<char>, i: int) -> bool
    decreases a.len() - i,
{
    if i >= b.len() {
        false
    } else if i >= a.len() {
        true
    } else if (a[i] as u32) < (b[i] as u32) {
        true
    } else if (b[i] as u32) < (a[i] as u32) {
        false
    } else {
        lex_lt_from(a, b, i + 1)
    }
}

/// `a` is strictly before `b` in name order.
pub open spec fn lex_lt(a: Seq<char>, b: Seq<char>) -> bool {
    lex_lt_from(a, b, 0)
}

proof fn lemma_lex_from_total(a: Seq<char>, b: Seq<char>, i: int)
    requires
        0 <= i <= a.len(),
        0 <= i <= b.len(),
        forall|j: int| 0 <= j < i ==> a[j] == b[j],
    ensures
        a == b || lex_lt_from(a, b, i) || lex_lt_from(b, a, i),
    decreases a.len() - i,
{
    if i < a.len() && i < b.len() && (a[i] as u32) == (b[i] as u32) {
        assert(a[i] == b[i]) by {
            vstd::utf8::char_u32_cast(a[i], a[i] as u32);
            vstd::utf8::char_u32_cast(b[i], b[i] as u32);
        }
        lemma_lex_from_total(a, b, i + 1);
    } else if i >= a.len() && i >= b.len() {
        assert(a =~= b);
    }
}

/// Any two names are equal or ordered one way.
pub proof fn lemma_lex_total(a: Seq<char>, b: Seq<char>)
    ensures
        a == b || lex_lt(a, b) || lex_lt(b, a),
{
    lemma_lex_from_total(a, b, 0);
}

proof fn lemma_lex_from_trans(a: Seq<char>, b: Seq<char>, c: Seq<char>, i: int)
    requires
        0 <= i,
        lex_lt_from(a, b, i),
        lex_lt_from(b, c, i),
    ensures
        lex_lt_from(a, c, i),
    decreases a.len() - i,
{
    if i < a.len() && i < b.len() && i < c.len() && (a[i] as u32) == (b[i] as u32) && (
    b[i] as u32) == (c[i] as u32) {
        lemma_lex_from_trans(a, b, c, i + 1);
    }
}

/// Name order is transitive.
pub proof fn lemma_lex_trans(a: Seq<char>, b: Seq<char>, c: Seq<char>)
    requires
        lex_lt(a, b),
        lex_lt(b, c),
    ensures
        lex_lt(a, c),
{
    lemma_lex_from_trans(a, b, c, 0);
}

/// Whether `a` comes strictly before `b` in name order.
pub fn name_lt(a: &String, b: &String) -> (r: bool)
    ensures
        r == lex_lt(a@, b@),
{
    let av = crate::text::str_chars(a.as_str());
    let bv = crate::text::str_chars(b.as_str());
    let na: usize = av.len();
    let nb: usize = bv.len();
    let mut i: usize = 0;
    while i < na && i < nb
        invariant
            na == av@.len(),
            nb == bv@.len(),
            av@ == a@,
            bv@ == b@,
            i <= na,
            i <= nb,
            lex_lt(a@, b@) == lex_lt_from(a@, b@, i as int),
        decreases na - i,
    {
        let ca = av[i] as u32;
        let cb = bv[i] as u32;
        if ca < cb {
            return true;
        }
        if cb < ca {
            return false;
        }
        i = i + 1;
    }
    i < nb
}

/// The table is strictly ascending in name order (so names are unique).
pub open spec fn table_sorted(defs: Seq<ModuleDef>) -> bool {
    forall|i: int, j: int|
        0 <= i < j < defs.len() ==> lex_lt(#[trigger] defs[i].name@, #[trigger] defs[j].name@)
}

/// The sources of the table's modules whose names are enabled, in table
/// order.
pub open spec fn selected_sources(defs: Seq<ModuleDef>, enabled: Seq<Seq<char>>) -> Seq<Seq<char>>
    decreases defs.len(),
{
    if defs.len() == 0 {
        Seq::empty()
    } else if enabled.contains(defs.last().name@) {
        selected_sources(defs.drop_last(), enabled).push(defs.last().source@)
    } else {
        selected_sources(defs.drop_last(), enabled)
    }
}

/// Blocks joined by one blank line between consecutive blocks.
pub open spec fn join_blocks(blocks: Seq<Seq<char>>) -> Seq<char>
    decreases blocks.len(),
{
    if blocks.len() == 0 {
        Seq::empty()
    } else if blocks.len() == 1 {
        blocks[0]
    } else {
        join_blocks(blocks.drop_last()) + "\n\n"@ + blocks.last()
    }
}

impl PrologModules {
    /// The views of the enabled names.
    pub open spec fn enabled_views(&self) -> Seq<Seq<char>> {
        name_views(self.enabled_modules@)
    }

    /// An empty table: no modules, none enabled.
    pub fn new() -> (r: Self)
        ensures
            r.available_modules@ == Seq::<ModuleDef>::empty(),
            r.enabled_modules@ == Seq::<String>::empty(),
    {
        PrologModules { available_modules: Vec::new(), enabled_modules: Vec::new() }
    }

    /// Whether the table has a module of this name.
    pub fn knows(&self, module: &str) -> (r: bool)
        ensures
            r == name_views(self.available_modules@.map_values(|d: ModuleDef| d.name)).contains(
                module@,
            ),
    {
        let needle = String::from_str(module);
        let ghost names = name_views(
            self.available_modules@.map_values(|d: ModuleDef| d.name),
        );
        let mut i: usize = 0;
        while i < self.available_modules.len()
            invariant
                needle@ == module@,
                names == name_views(self.available_modules@.map_values(|d: ModuleDef| d.name)),
                i <= self.available_modules@.len(),
                forall|j: int| 0 <= j < i ==> names[j] != module@,
            decreases self.available_modules@.len() - i,
        {
            proof {
                assert(names[i as int] == self.available_modules@[i as int].name@);
            }
            if self.available_modules[i].name.eq(&needle) {
                return true;
            }
            i = i + 1;
        }
        proof {
            if names.contains(module@) {
                let j = choose|j: int| 0 <= j < names.len() && names[j] == module@;
                assert(names[j] != module@);
            }
        }
        false
    }

    /// Whether a name is currently enabled.
    pub fn is_enabled(&self, module: &str) -> (r: bool)
        ensures
            r == self.enabled_views().contains(module@),
    {
        let needle = String::from_str(module);
        let ghost names = self.enabled_views();
        let mut i: usize = 0;
        while i < self.enabled_modules.len()
            invariant
                needle@ == module@,
                names == self.enabled_views(),
                i <= self.enabled_modules@.len(),
                forall|j: int| 0 <= j < i ==> names[j] != module@,
            decreases self.enabled_modules@.len() - i,
        {
            proof {
                assert(names[i as int] == self.enabled_modules@[i as int]@);
            }
            if self.enabled_modules[i].eq(&needle) {
                return true;
            }
            i = i + 1;
        }
        proof {
            if names.contains(module@) {
                let j = choose|j: int| 0 <= j < names.len() && names[j] == module@;
                assert(names[j] != module@);
            }
        }
        false
    }

    /// Adds a module to the table unless the name is already taken, and
    /// enables it.  The table stays strictly name-sorted: the new module goes
    /// in at its name's position.
    pub fn insert_module(&mut self, name: String, source: String)
        requires
            table_sorted(old(self).available_modules@),
        ensures
            table_sorted(final(self).available_modules@),
            name_views(old(self).available_modules@.map_values(|d: ModuleDef| d.name)).contains(
                name@,
            ) ==> *final(self) == *old(self),
            !name_views(old(self).available_modules@.map_values(|d: ModuleDef| d.name)).contains(
                name@,
            ) ==> {
                &&& exists|j: int|
                    {
                        &&& 0 <= j <= old(self).available_modules@.len()
                        &&& final(self).available_modules@ == old(self).available_modules@.insert(
                            j,
                            #[trigger] final(self).available_modules@[j],
                        )
                        &&& final(self).available_modules@[j].name@ == name@
                        &&& final(self).available_modules@[j].source@ == source@
                    }
                &&& final(self).enabled_modules@.len() == old(self).enabled_modules@.len() + 1
                &&& final(self).enabled_modules@.drop_last() == old(self).enabled_modules@
                &&& final(self).enabled_modules@.last()@ == name@
            },
    {
        if self.knows(name.as_str()) {
            return;
        }
        let ghost table = self.available_modules@;
        let ghost nm = name@;
        proof {
            assert forall|m: int| 0 <= m < table.len() implies table[m].name@ != nm by {
                let names = name_views(table.map_values(|d: ModuleDef| d.name));
                if table[m].name@ == nm {
                    assert(names[m] == nm);
                }
            }
        }
        let enabled_name = name.clone();
        let mut j: usize = 0;
        while j < self.available_modules.len() && name_lt(&self.available_modules[j].name, &name)
            invariant
                nm == name@,
                table == self.available_modules@,
                j <= table.len(),
                forall|k: int| 0 <= k < j ==> lex_lt(#[trigger] table[k].name@, nm),
            decreases table.len() - j,
        {
            j = j + 1;
        }
        proof {
            if (j as int) < table.len() {
                lemma_lex_total(nm, table[j as int].name@);
                assert(lex_lt(nm, table[j as int].name@));
            }
        }
        self.available_modules.insert(j, ModuleDef { name, source });
        self.enabled_modules.push(enabled_name);
        proof {
            let post = final(self).available_modules@;
            let elem = post[j as int];
            table.insert_ensures(j as int, elem);
            assert(post == table.insert(j as int, elem));
            assert(elem.name@ == nm);
            assert forall|i: int, k: int| 0 <= i < k < post.len() implies lex_lt(
                #[trigger] post[i].name@,
                #[trigger] post[k].name@,
            ) by {
                if k < j {
                    assert(post[i] == table[i] && post[k] == table[k]);
                } else if k == j {
                    assert(post[i] == table[i]);
                    assert(lex_lt(table[i].name@, nm));
                } else if i < j {
                    assert(post[i] == table[i] && post[k] == table[k - 1]);
                    assert(lex_lt(table[i].name@, table[k - 1].name@)) by {
                        if i == k - 1 {
                            assert(lex_lt(table[i].name@, nm));
                            assert(lex_lt(nm, table[i].name@) == false);
                        }
                    }
                } else if i == j {
                    assert(post[k] == table[k - 1]);
                    assert(lex_lt(nm, table[j as int].name@));
                    if k - 1 > j {
                        lemma_lex_trans(nm, table[j as int].name@, table[k - 1].name@);
                    }
                } else {
                    assert(post[i] == table[i - 1] && post[k] == table[k - 1]);
                }
            }
            assert(final(self).enabled_modules@.drop_last() =~= old(self).enabled_modules@);
        }
    }

    /// Disables every module of this name: the name is removed from the
    /// enabled list, order of the rest kept; the table is untouched.
    pub fn disable(&mut self, module: &str)
        ensures
            final(self).available_modules@ == old(self).available_modules@,
            name_views(final(self).enabled_modules@) == names_without(
                name_views(old(self).enabled_modules@),
                module@,
            ),
    {
        let needle = String::from_str(module);
        let ghost names = name_views(self.enabled_modules@);
        let mut kept: Vec<String> = Vec::new();
        let mut i: usize = 0;
        while i < self.enabled_modules.len()
            invariant
                needle@ == module@,
                names == name_views(self.enabled_modules@),
                i <= self.enabled_modules@.len(),
                name_views(kept@) == names_without(names.subrange(0, i as int), module@),
            decreases self.enabled_modules@.len() - i,
        {
            proof {
                assert(names.subrange(0, i + 1).drop_last() =~= names.subrange(0, i as int));
                assert(names.subrange(0, i + 1).last() == names[i as int]);
                assert(names[i as int] == self.enabled_modules@[i as int]@);
            }
            if !self.enabled_modules[i].eq(&needle) {
                let kept_name = self.enabled_modules[i].clone();
                kept.push(kept_name);
                proof {
                    assert(name_views(kept@) =~= names_without(
                        names.subrange(0, i + 1),
                        module@,
                    ));
                }
            } else {
                proof {
                    assert(name_views(kept@) =~= names_without(
                        names.subrange(0, i + 1),
                        module@,
                    ));
                }
            }
            i = i + 1;
        }
        proof {
            assert(names.subrange(0, names.len() as int) =~= names);
        }
        self.enabled_modules = kept;
    }

    /// Enables a module of the table unless it already is enabled.  A name
    /// the table does not know is ignored.
    pub fn enable(&mut self, module: &str)
        ensures
            final(self).available_modules@ == old(self).available_modules@,
            (!name_views(old(self).available_modules@.map_values(|d: ModuleDef| d.name)).contains(
                module@,
            ) || old(self).enabled_views().contains(module@)) ==> *final(self) == *old(self),
            name_views(old(self).available_modules@.map_values(|d: ModuleDef| d.name)).contains(
                module@,
            ) && !old(self).enabled_views().contains(module@) ==> {
                &&& final(self).enabled_modules@.len() == old(self).enabled_modules@.len() + 1
                &&& final(self).enabled_modules@.drop_last() == old(self).enabled_modules@
                &&& final(self).enabled_modules@.last()@ == module@
            },
    {
        if !self.knows(module) {
            return;
        }
        if self.is_enabled(module) {
            return;
        }
        self.enabled_modules.push(String::from_str(module));
        proof {
            assert(final(self).enabled_modules@.drop_last() =~= old(self).enabled_modules@);
        }
    }

    /// The merged prelude: the sources of the enabled modules, in table
    /// order - ascending name order, since the table is kept sorted -
    /// separated by blank lines.
    pub fn to_merged_string(&self) -> (r: String)
        ensures
            r@ == join_blocks(selected_sources(self.available_modules@, self.enabled_views())),
    {
        let ghost defs = self.available_modules@;
        let ghost enabled = self.enabled_views();
        let mut blocks: Vec<String> = Vec::new();
        let mut i: usize = 0;
        while i < self.available_modules.len()
            invariant
                defs == self.available_modules@,
                enabled == self.enabled_views(),
                i <= defs.len(),
                blocks@.map_values(|b: String| b@) == selected_sources(
                    defs.subrange(0, i as int),
                    enabled,
                ),
            decreases defs.len() - i,
        {
            proof {
                assert(defs.subrange(0, i + 1).drop_last() =~= defs.subrange(0, i as int));
                assert(defs.subrange(0, i + 1).last() == defs[i as int]);
            }
            if self.is_enabled(self.available_modules[i].name.as_str()) {
                let block = self.available_modules[i].source.clone();
                blocks.push(block);
                proof {
                    assert(blocks@.map_values(|b: String| b@) =~= selected_sources(
                        defs.subrange(0, i + 1),
                        enabled,
                    ));
                }
            } else {
                proof {
                    assert(blocks@.map_values(|b: String| b@) =~= selected_sources(
                        defs.subrange(0, i + 1),
                        enabled,
                    ));
                }
            }
            i = i + 1;
        }
        proof {
            assert(defs.subrange(0, defs.len() as int) =~= defs);
        }
        let ghost all_blocks = blocks@.map_values(|b: String| b@);
        let mut r = String::new();
        let mut k: usize = 0;
        while k < blocks.len()
            invariant
                all_blocks == blocks@.map_values(|b: String| b@),
                k <= blocks@.len(),
                r@ == join_blocks(all_blocks.subrange(0, k as int)),
            decreases all_blocks.len() - k,
        {
            proof {
                assert(all_blocks.subrange(0, k + 1).drop_last() =~= all_blocks.subrange(
                    0,
                    k as int,
                ));
                assert(all_blocks.subrange(0, k + 1).last() == all_blocks[k as int]);
            }
            if k > 0 {
                r.append("\n\n");
            }
            r.append(blocks[k].as_str());
            k = k + 1;
            proof {
                assert(r@ =~= join_blocks(all_blocks.subrange(0, k as int)));
            }
        }
        proof {
            assert(all_blocks.subrange(0, all_blocks.len() as int) =~= all_blocks);
        }
        r
    }
}

} // verus!
