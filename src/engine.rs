//! The execution context: an ordered registry of compiled modules, searched
//! most recent first.
use std::path::PathBuf;
use vstd::prelude::*;

use crate::options::{build_exec_options, spec_exec_options, ExecOptions};

verus! {

/// Handle of a native module, compared by identity.
#[derive(Clone, Copy, Debug, PartialEq, Eq, Structural)]
pub struct ModuleRef(pub usize);

/// Handle of the native execution engine.
#[derive(Clone, Copy, Debug, PartialEq, Eq, Structural)]
pub struct EngineRef(pub usize);

/// A named symbol of a module and the address the engine bound it to.
#[derive(Debug)]
pub struct Symbol {
    pub name: String,
    pub addr: usize,
}

/// A module registered with the engine, with the functions and globals it
/// defines.
#[derive(Debug)]
pub struct LoadedModule {
    pub handle: ModuleRef,
    pub functions: Vec<Symbol>,
    pub globals: Vec<Symbol>,
}

/// Which symbol table a lookup searches.
pub enum SymbolKind {
    Function,
    Global,
}

/// The address bound to `name` in a table: the first entry of that name.
pub open spec fn symbol_addr(table: Seq<Symbol>, name: Seq<char>) -> Option<usize>
    decreases table.len(),
{
    if table.len() == 0 {
        None
    } else if table[0].name@ == name {
        Some(table[0].addr)
    } else {
        symbol_addr(table.drop_first(), name)
    }
}

pub open spec fn table_of(m: LoadedModule, kind: SymbolKind) -> Seq<Symbol> {
    match kind {
        SymbolKind::Function => m.functions@,
        SymbolKind::Global => m.globals@,
    }
}

/// The address `name` resolves to among `mods`, scanning from the most
/// recently added module back to the oldest.
pub open spec fn lookup(mods: Seq<LoadedModule>, kind: SymbolKind, name: Seq<char>) -> Option<usize>
    decreases mods.len(),
{
    if mods.len() == 0 {
        None
    } else {
        match symbol_addr(table_of(mods.last(), kind), name) {
            Some(a) => Some(a),
            None => lookup(mods.drop_last(), kind, name),
        }
    }
}

pub open spec fn handles_distinct(mods: Seq<LoadedModule>) -> bool {
    forall|i: int, j: int|
        0 <= i < mods.len() && 0 <= j < mods.len() && i != j ==> mods[i].handle != mods[j].handle
}

pub open spec fn is_registered(mods: Seq<LoadedModule>, h: ModuleRef) -> bool {
    exists|i: int| 0 <= i < mods.len() && mods[i].handle == h
}

/// The modules that remain once the module with handle `h` is removed.
pub open spec fn without_module(mods: Seq<LoadedModule>, h: ModuleRef) -> Seq<LoadedModule> {
    mods.remove(choose|i: int| 0 <= i < mods.len() && mods[i].handle == h)
}

/// The modules registered after an `add_module` call with `compiled`.
pub open spec fn after_add(mods: Seq<LoadedModule>, compiled: Option<LoadedModule>) -> Seq<LoadedModule> {
    match compiled {
        Some(m) => mods.push(m),
        None => mods,
    }
}

/// Compiles input into an execution environment: owns the native engine and
/// the modules registered with it, in insertion order.
pub struct ExecutionEngine {
    ee: EngineRef,
    modules: Vec<LoadedModule>,
    /// Additional search paths for libraries
    lib_paths: Vec<String>,
    sysroot: PathBuf,
}

impl ExecutionEngine {
    pub closed spec fn spec_modules(&self) -> Seq<LoadedModule> {
        self.modules@
    }

    pub closed spec fn spec_engine(&self) -> EngineRef {
        self.ee
    }

    pub closed spec fn spec_lib_paths(&self) -> Seq<String> {
        self.lib_paths@
    }

    pub closed spec fn spec_sysroot(&self) -> PathBuf {
        self.sysroot
    }

    /// Every registered module has its own handle.
    pub open spec fn wf(&self) -> bool {
        handles_distinct(self.spec_modules())
    }

    /// Builds the context around a native engine created from the compiled
    /// seed module, which becomes the first registered module.
    pub fn new_with_input(ee: EngineRef, seed: LoadedModule, libs: Vec<String>, sysroot: PathBuf) -> (r: Self)
        ensures
            r.wf(),
            r.spec_engine() == ee,
            r.spec_modules() == seq![seed],
            r.spec_lib_paths() == libs@,
            r.spec_sysroot() == sysroot,
    {
        let mut modules: Vec<LoadedModule> = Vec::new();
        modules.push(seed);
        ExecutionEngine { ee, modules, lib_paths: libs, sysroot }
    }

    /// Registers the outcome of one compilation. A failed compilation
    /// (`None`) leaves the context as it was; a compiled module is appended
    /// after every module registered so far and its handle returned.
    pub fn add_module(&mut self, compiled: Option<LoadedModule>) -> (r: Option<ModuleRef>)
        requires
            old(self).wf(),
            compiled matches Some(m) ==> !is_registered(old(self).spec_modules(), m.handle),
        ensures
            final(self).wf(),
            final(self).spec_modules() == after_add(old(self).spec_modules(), compiled),
            final(self).spec_engine() == old(self).spec_engine(),
            final(self).spec_lib_paths() == old(self).spec_lib_paths(),
            final(self).spec_sysroot() == old(self).spec_sysroot(),
            r == (match compiled {
                Some(m) => Some(m.handle),
                None => None::<ModuleRef>,
            }),
            compiled is None ==> *final(self) == *old(self),
    {
        match compiled {
            None => None,
            Some(m) => {
                let h = m.handle;
                let ghost mods = self.modules@;
                self.modules.push(m);
                proof {
                    assert forall|i: int, j: int|
                        0 <= i < self.modules@.len() && 0 <= j < self.modules@.len() && i != j
                        implies self.modules@[i].handle != self.modules@[j].handle by {
                        if i == mods.len() as int {
                            assert(mods[j].handle == self.modules@[j].handle);
                        } else if j == mods.len() as int {
                            assert(mods[i].handle == self.modules@[i].handle);
                        }
                    }
                }
                Some(h)
            },
        }
    }

    /// Tells whether a module with handle `h` is registered.
    pub fn contains_module(&self, h: ModuleRef) -> (r: bool)
        ensures
            r == is_registered(self.spec_modules(), h),
    {
        self.position(h).is_some()
    }

    fn position(&self, h: ModuleRef) -> (r: Option<usize>)
        ensures
            match r {
                Some(i) => i < self.modules@.len() && self.modules@[i as int].handle == h,
                None => !is_registered(self.spec_modules(), h),
            },
    {
        let mut i: usize = 0;
        while i < self.modules.len()
            invariant
                i <= self.modules@.len(),
                forall|k: int| 0 <= k < i ==> self.modules@[k].handle != h,
            decreases self.modules@.len() - i,
        {
            if self.modules[i].handle == h {
                return Some(i);
            }
            i = i + 1;
        }
        None
    }

    /// Removes the module with handle `h` from the registry; the caller
    /// then disposes of it natively. The handle must be registered.
    pub fn remove_module(&mut self, h: ModuleRef)
        requires
            old(self).wf(),
            is_registered(old(self).spec_modules(), h),
        ensures
            final(self).wf(),
            final(self).spec_modules() == without_module(old(self).spec_modules(), h),
            !is_registered(final(self).spec_modules(), h),
            final(self).spec_engine() == old(self).spec_engine(),
            final(self).spec_lib_paths() == old(self).spec_lib_paths(),
            final(self).spec_sysroot() == old(self).spec_sysroot(),
    {
        let ghost mods = self.modules@;
        let i = match self.position(h) {
            Some(i) => i,
            None => {
                return;
            },
        };
        let _ = self.modules.remove(i);
        proof {
            lemma_without_at(mods, h, i as int);
        }
    }

    /// Searches the registered modules for the named function, beginning with
    /// the most recently added module, and returns the address it is bound
    /// to.
    pub fn get_function(&self, name: &str) -> (r: Option<usize>)
        ensures
            r == lookup(self.spec_modules(), SymbolKind::Function, name@),
    {
        self.find_symbol(SymbolKind::Function, name)
    }

    /// Searches the registered modules for the named global, beginning with
    /// the most recently added module, and returns the address it is bound
    /// to.
    pub fn get_global(&self, name: &str) -> (r: Option<usize>)
        ensures
            r == lookup(self.spec_modules(), SymbolKind::Global, name@),
    {
        self.find_symbol(SymbolKind::Global, name)
    }

    fn find_symbol(&self, kind: SymbolKind, name: &str) -> (r: Option<usize>)
        ensures
            r == lookup(self.spec_modules(), kind, name@),
    {
        let mut i: usize = self.modules.len();
        assert(self.modules@.subrange(0, i as int) =~= self.modules@);
        while i > 0
            invariant
                i <= self.modules@.len(),
                lookup(self.modules@, kind, name@) == lookup(self.modules@.subrange(0, i as int), kind, name@),
            decreases i,
        {
            let m = &self.modules[i - 1];
            let table = match kind {
                SymbolKind::Function => &m.functions,
                SymbolKind::Global => &m.globals,
            };
            let found = find_in_table(table, name);
            let ghost pre = self.modules@.subrange(0, i as int);
            assert(pre.drop_last() == self.modules@.subrange(0, i - 1));
            if found.is_some() {
                return found;
            }
            i = i - 1;
        }
        assert(self.modules@.subrange(0, 0) =~= Seq::<LoadedModule>::empty());
        None
    }

    /// The native engine this context owns.
    pub fn engine(&self) -> (r: EngineRef)
        ensures
            r == self.spec_engine(),
    {
        self.ee
    }

    /// The handles of the registered modules, in insertion order.
    pub fn module_handles(&self) -> (r: Vec<ModuleRef>)
        ensures
            r@.len() == self.spec_modules().len(),
            forall|i: int| 0 <= i < r@.len() ==> r@[i] == self.spec_modules()[i].handle,
    {
        let mut r: Vec<ModuleRef> = Vec::new();
        let mut i: usize = 0;
        while i < self.modules.len()
            invariant
                i <= self.modules@.len(),
                r@.len() == i,
                forall|k: int| 0 <= k < i ==> r@[k] == self.modules@[k].handle,
            decreases self.modules@.len() - i,
        {
            r.push(self.modules[i].handle);
            i = i + 1;
        }
        r
    }

    /// The toolchain options every compilation of this context runs with.
    pub fn exec_options(&self) -> (r: ExecOptions)
        ensures
            r@ == spec_exec_options(self.spec_sysroot(), self.spec_lib_paths()),
    {
        let mut libs: Vec<String> = Vec::new();
        let mut i: usize = 0;
        while i < self.lib_paths.len()
            invariant
                i <= self.lib_paths@.len(),
                libs@ == self.lib_paths@.subrange(0, i as int),
            decreases self.lib_paths@.len() - i,
        {
            libs.push(self.lib_paths[i].clone());
            proof {
                assert(libs@ =~= self.lib_paths@.subrange(0, i + 1));
            }
            i = i + 1;
        }
        proof {
            assert(libs@ =~= self.lib_paths@);
        }
        build_exec_options(self.sysroot.clone(), libs)
    }
}

fn find_in_table(table: &Vec<Symbol>, name: &str) -> (r: Option<usize>)
    ensures
        r == symbol_addr(table@, name@),
{
    let target = name.to_owned();
    let mut i: usize = 0;
    assert(table@.subrange(0, table@.len() as int) =~= table@);
    while i < table.len()
        invariant
            i <= table@.len(),
            target@ == name@,
            symbol_addr(table@, name@) == symbol_addr(table@.subrange(i as int, table@.len() as int), name@),
        decreases table@.len() - i,
    {
        let ghost rest = table@.subrange(i as int, table@.len() as int);
        assert(rest.drop_first() == table@.subrange(i + 1, table@.len() as int));
        if table[i].name == target {
            return Some(table[i].addr);
        }
        i = i + 1;
    }
    None
}

/// A name defined in no registered module resolves to nothing.
pub proof fn lemma_lookup_miss(mods: Seq<LoadedModule>, kind: SymbolKind, name: Seq<char>)
    requires
        forall|i: int| 0 <= i < mods.len() ==> symbol_addr(#[trigger] table_of(mods[i], kind), name) is None,
    ensures
        lookup(mods, kind, name) is None,
    decreases mods.len(),
{
    if mods.len() > 0 {
        assert(symbol_addr(table_of(mods[mods.len() - 1], kind), name) is None);
        let rest = mods.drop_last();
        assert forall|i: int| 0 <= i < rest.len() implies symbol_addr(#[trigger] table_of(rest[i], kind), name) is None by {
            assert(rest[i] == mods[i]);
        }
        lemma_lookup_miss(rest, kind, name);
    }
}

/// Later modules shadow earlier ones: after adding `m1` and then `m2`, a name
/// that `m2` defines resolves to `m2`'s address; after removing `m2` again, a
/// name that `m1` defines resolves to `m1`'s address once more.
pub proof fn lemma_shadowing(
    mods: Seq<LoadedModule>,
    m1: LoadedModule,
    m2: LoadedModule,
    kind: SymbolKind,
    name: Seq<char>,
)
    requires
        handles_distinct(after_add(after_add(mods, Some(m1)), Some(m2))),
    ensures
        symbol_addr(table_of(m2, kind), name) is Some ==> lookup(
            after_add(after_add(mods, Some(m1)), Some(m2)),
            kind,
            name,
        ) == symbol_addr(table_of(m2, kind), name),
        symbol_addr(table_of(m1, kind), name) is Some ==> lookup(
            without_module(after_add(after_add(mods, Some(m1)), Some(m2)), m2.handle),
            kind,
            name,
        ) == symbol_addr(table_of(m1, kind), name),
{
    let both = mods.push(m1).push(m2);
    assert(both.last() == m2);
    assert(both.drop_last() == mods.push(m1));
    lemma_without_at(both, m2.handle, both.len() - 1);
    assert(both.remove(both.len() - 1) =~= mods.push(m1));
    assert(mods.push(m1).last() == m1);
}

proof fn lemma_without_at(mods: Seq<LoadedModule>, h: ModuleRef, i: int)
    requires
        handles_distinct(mods),
        0 <= i < mods.len(),
        mods[i].handle == h,
    ensures
        without_module(mods, h) == mods.remove(i),
        handles_distinct(mods.remove(i)),
        !is_registered(mods.remove(i), h),
{
    let k = choose|k: int| 0 <= k < mods.len() && mods[k].handle == h;
    assert(k == i);
    let r = mods.remove(i);
    assert forall|a: int| 0 <= a < r.len() implies r[a] == (if a < i { mods[a] } else { mods[a + 1] }) by {}
    if is_registered(r, h) {
        let a = choose|a: int| 0 <= a < r.len() && r[a].handle == h;
        if a < i {
            assert(mods[a].handle == h);
        } else {
            assert(mods[a + 1].handle == h);
        }
    }
}

} // verus!
