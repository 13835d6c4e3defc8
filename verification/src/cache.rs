//! The cache of generated kernel source.
//!
//! Source is generated on the first request for a key and kept from then
//! on. A request that finds its key returns the kept text and leaves the
//! generator alone; a failed generation is not kept, so that the next
//! request for the key tries again.
use vstd::prelude::*;
use std::collections::HashMap;
use crate::compiler::{Compiler, Generated};
use crate::elem::JitElement;
use crate::kernel::{KernelKey, KernelVariant, UnaryKernel};

verus! {

/// What a cache holds: the text kept under each key, and how often the
/// generator has been invoked.
pub struct CacheModel {
    pub entries: Map<KernelKey, String>,
    pub generations: nat,
}

impl CacheModel {
    /// The cache before any request.
    pub open spec fn empty() -> CacheModel {
        CacheModel { entries: Map::empty(), generations: 0 }
    }

    /// One request for `key`, where the generator would answer `generated`:
    /// the cache after it, and what it returns.
    pub open spec fn resolve(self, key: KernelKey, generated: Generated) -> (CacheModel, Generated) {
        if self.entries.contains_key(key) {
            (self, Ok(self.entries[key]))
        } else {
            match generated {
                Ok(text) => (
                    CacheModel {
                        entries: self.entries.insert(key, text),
                        generations: self.generations + 1,
                    },
                    Ok(text),
                ),
                Err(error) => (
                    CacheModel { entries: self.entries, generations: self.generations + 1 },
                    Err(error),
                ),
            }
        }
    }

    /// The cache after the requests `calls`, each a key with the answer
    /// that the generator would give for it.
    pub open spec fn run(self, calls: Seq<(KernelKey, Generated)>) -> CacheModel
        decreases calls.len(),
    {
        if calls.len() == 0 {
            self
        } else {
            self.run(calls.drop_last()).resolve(calls.last().0, calls.last().1).0
        }
    }

    /// The cache after `n` requests for `key`.
    pub open spec fn repeat(self, key: KernelKey, generated: Generated, n: nat) -> CacheModel
        decreases n,
    {
        if n == 0 {
            self
        } else {
            self.repeat(key, generated, (n - 1) as nat).resolve(key, generated).0
        }
    }

    /// Nothing is evicted or replaced: the text kept under a key stays
    /// there whatever is requested afterwards.
    pub proof fn lemma_entries_persist(self, calls: Seq<(KernelKey, Generated)>, key: KernelKey)
        requires
            self.entries.contains_key(key),
        ensures
            self.run(calls).entries.contains_key(key),
            self.run(calls).entries[key] == self.entries[key],
        decreases calls.len(),
    {
        if calls.len() > 0 {
            self.lemma_entries_persist(calls.drop_last(), key);
        }
    }

    /// Once a request for a key has returned a text, every later request
    /// for that key returns the same text, whatever was requested in
    /// between and whatever the generator would answer now.
    pub proof fn lemma_source_is_stable(
        self,
        key: KernelKey,
        first: Generated,
        between: Seq<(KernelKey, Generated)>,
        again: Generated,
    )
        requires
            self.resolve(key, first).1 is Ok,
        ensures
            self.resolve(key, first).0.run(between).resolve(key, again).1 == self.resolve(key, first).1,
    {
        self.resolve(key, first).0.lemma_entries_persist(between, key);
    }

    /// Any number of requests for one key, one at least, invokes a
    /// generator that succeeds exactly once where the key was not cached,
    /// and not at all where it was.
    pub proof fn lemma_single_generation(self, key: KernelKey, generated: Generated, n: nat)
        requires
            generated is Ok,
            n >= 1,
        ensures
            self.repeat(key, generated, n).entries.contains_key(key),
            self.repeat(key, generated, n).generations == if self.entries.contains_key(key) {
                self.generations
            } else {
                self.generations + 1
            },
        decreases n,
    {
        if n > 1 {
            self.lemma_single_generation(key, generated, (n - 1) as nat);
        } else {
            assert(self.repeat(key, generated, 0) == self);
        }
    }

    /// A generator that fails is invoked again by every request: no
    /// failure is kept.
    pub proof fn lemma_failure_is_retried(self, key: KernelKey, generated: Generated, n: nat)
        requires
            generated is Err,
            !self.entries.contains_key(key),
        ensures
            self.repeat(key, generated, n).entries == self.entries,
            self.repeat(key, generated, n).generations == self.generations + n,
        decreases n,
    {
        if n > 0 {
            self.lemma_failure_is_retried(key, generated, (n - 1) as nat);
        }
    }
}

/// The cache of the source that the generator `C` gave, by key.
pub struct KernelSourceCache<C: Compiler> {
    compiler: C,
    sources: HashMap<u64, String>,
    generations: Ghost<nat>,
}

impl<C: Compiler> KernelSourceCache<C> {
    /// The texts kept, and the number of invocations of the generator.
    pub closed spec fn view(&self) -> CacheModel {
        CacheModel {
            entries: Map::new(
                |key: KernelKey| self.sources@.contains_key(key.spec_code()),
                |key: KernelKey| self.sources@[key.spec_code()],
            ),
            generations: self.generations@,
        }
    }

    /// The generator.
    pub closed spec fn spec_compiler(&self) -> C {
        self.compiler
    }

    /// An empty cache in front of `compiler`.
    pub fn new(compiler: C) -> (cache: Self)
        ensures
            cache@ == CacheModel::empty(),
            cache.spec_compiler() == compiler,
    {
        let cache = KernelSourceCache { compiler, sources: HashMap::new(), generations: Ghost(0) };
        assert(cache@.entries =~= Map::<KernelKey, String>::empty());
        cache
    }

    /// The generator.
    pub fn compiler(&self) -> (compiler: &C)
        ensures
            *compiler == self.spec_compiler(),
    {
        &self.compiler
    }

    /// The text kept under `key`, if there is one. The generator is not
    /// invoked.
    pub fn get(&self, key: KernelKey) -> (r: Option<String>)
        ensures
            r == if self@.entries.contains_key(key) {
                Some(self@.entries[key])
            } else {
                None
            },
    {
        match self.sources.get(&key.code()) {
            Some(text) => Some(text.clone()),
            None => None,
        }
    }

    /// The source of `variant` of `kernel`: the text kept under its key,
    /// or else the text that the generator gives for its descriptor, which
    /// is then kept. An error of the generator is returned and not kept.
    pub fn source_for<E: JitElement>(
        &mut self,
        kernel: &UnaryKernel<E>,
        variant: KernelVariant,
    ) -> (r: Generated)
        ensures
            final(self)@ == old(self)@.resolve(
                kernel.spec_key(variant),
                old(self).spec_compiler().source(&kernel.spec_descriptor(variant)),
            ).0,
            r == old(self)@.resolve(
                kernel.spec_key(variant),
                old(self).spec_compiler().source(&kernel.spec_descriptor(variant)),
            ).1,
            final(self).spec_compiler() == old(self).spec_compiler(),
    {
        let key = kernel.key(variant);
        let code: u64 = key.code();
        match self.sources.get(&code) {
            Some(text) => {
                return Ok(text.clone());
            },
            None => {},
        }
        let info = kernel.descriptor(variant);
        let generated = self.compiler.compile(&info);
        proof {
            self.generations@ = self.generations@ + 1;
        }
        match generated {
            Ok(text) => {
                self.sources.insert(code, text.clone());
                proof {
                    assert forall|other: KernelKey| other.spec_code() == code implies other == key by {
                        KernelKey::lemma_code_names_key(other, key);
                    }
                    assert(self@.entries =~= old(self)@.entries.insert(key, text));
                }
                Ok(text)
            },
            Err(error) => {
                assert(self@.entries =~= old(self)@.entries);
                Err(error)
            },
        }
    }
}

} // verus!
