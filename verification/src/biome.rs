//! The biome table: an ordered list of biomes and what they share.

pub mod document;

use vstd::prelude::*;
use vstd::string::*;
use crate::decimal::Decimal;

verus! {

/// The deepest and the highest boundary that the editor lets a biome have.
pub const BIOME_DEPTH_LIMIT: i32 = 99999;

/// The least frequency that a biome is taken to have, in millionths.
pub const MIN_FREQUENCY_MICROS: i64 = 10_000;

/// The value of one named parameter in one biome.
#[derive(Clone, PartialEq, Eq, Debug)]
pub struct BiomeParam {
    pub name: String,
    pub val: Decimal,
}

/// One biome.
#[derive(Clone, PartialEq, Eq, Debug)]
pub struct Biome {
    pub name: String,
    pub frequency: Decimal,
    /// Key of the texture; what slot it stands for is decided elsewhere.
    pub texture: String,
    pub color: [Decimal; 3],
    pub min_depth: i32,
    pub max_depth: i32,
    /// Values of the named parameters. A name that is missing stands for
    /// zero; of two entries with one name the first counts.
    pub params: Vec<BiomeParam>,
}

/// The biome table. The order of `biomes` is significant: generated source
/// refers to a biome by its index.
#[derive(Clone, PartialEq, Eq, Debug)]
pub struct Biomes {
    pub biome_params: Vec<String>,
    pub biomes: Vec<Biome>,
    pub biome_size: Decimal,
    pub biome_blending: Decimal,
}

pub struct BiomeView {
    pub name: Seq<char>,
    pub frequency: Decimal,
    pub texture: Seq<char>,
    pub color: Seq<Decimal>,
    pub min_depth: i32,
    pub max_depth: i32,
    pub params: Seq<(Seq<char>, Decimal)>,
}

pub struct BiomesView {
    pub biome_params: Seq<Seq<char>>,
    pub biomes: Seq<BiomeView>,
    pub biome_size: Decimal,
    pub biome_blending: Decimal,
}

impl View for Biome {
    type V = BiomeView;

    open spec fn view(&self) -> BiomeView {
        BiomeView {
            name: self.name@,
            frequency: self.frequency,
            texture: self.texture@,
            color: self.color@,
            min_depth: self.min_depth,
            max_depth: self.max_depth,
            params: Seq::new(
                self.params@.len(),
                |i: int| (self.params@[i].name@, self.params@[i].val),
            ),
        }
    }
}

impl View for Biomes {
    type V = BiomesView;

    open spec fn view(&self) -> BiomesView {
        BiomesView {
            biome_params: self.biome_params.deep_view(),
            biomes: Seq::new(self.biomes@.len(), |i: int| self.biomes@[i]@),
            biome_size: self.biome_size,
            biome_blending: self.biome_blending,
        }
    }
}

/// The value that the first `n` entries give to `name`: that of the first
/// entry with this name, or zero.
pub open spec fn param_within(params: Seq<(Seq<char>, Decimal)>, name: Seq<char>, n: int) -> Decimal
    decreases n,
{
    if n <= 0 {
        Decimal { micros: 0 }
    } else if has_param_within(params, name, n - 1) {
        param_within(params, name, n - 1)
    } else if params[n - 1].0 == name {
        params[n - 1].1
    } else {
        Decimal { micros: 0 }
    }
}

/// Whether one of the first `n` entries carries `name`.
pub open spec fn has_param_within(params: Seq<(Seq<char>, Decimal)>, name: Seq<char>, n: int) -> bool
    decreases n,
{
    if n <= 0 {
        false
    } else {
        has_param_within(params, name, n - 1) || params[n - 1].0 == name
    }
}

proof fn lemma_param_found(params: Seq<(Seq<char>, Decimal)>, name: Seq<char>, i: int, n: int)
    requires
        0 < i <= n,
        has_param_within(params, name, i),
    ensures
        has_param_within(params, name, n),
        param_within(params, name, n) == param_within(params, name, i),
    decreases n - i,
{
    if i < n {
        lemma_param_found(params, name, i, n - 1);
    }
}

/// The place of the first of the first `n` entries with the name `name`, or
/// -1.
pub open spec fn param_index(params: Seq<(Seq<char>, Decimal)>, name: Seq<char>, n: int) -> int
    decreases n,
{
    if n <= 0 {
        -1
    } else if param_index(params, name, n - 1) >= 0 {
        param_index(params, name, n - 1)
    } else if params[n - 1].0 == name {
        n - 1
    } else {
        -1
    }
}

/// The entries with `name` set to `val`: in the first entry of that name,
/// or in a new entry at the end.
pub open spec fn with_param(params: Seq<(Seq<char>, Decimal)>, name: Seq<char>, val: Decimal) -> Seq<
    (Seq<char>, Decimal),
> {
    let i = param_index(params, name, params.len() as int);
    if i >= 0 {
        params.update(i, (name, val))
    } else {
        params.push((name, val))
    }
}

proof fn lemma_param_index(params: Seq<(Seq<char>, Decimal)>, name: Seq<char>, n: int)
    requires
        0 <= n <= params.len(),
    ensures
        -1 <= param_index(params, name, n) < n,
        param_index(params, name, n) >= 0 <==> has_param_within(params, name, n),
        param_index(params, name, n) >= 0 ==> params[param_index(params, name, n)].0 == name
            && param_within(params, name, n) == params[param_index(params, name, n)].1,
    decreases n,
{
    if n > 0 {
        lemma_param_index(params, name, n - 1);
    }
}

proof fn lemma_param_index_found(params: Seq<(Seq<char>, Decimal)>, name: Seq<char>, i: int, n: int)
    requires
        0 < i <= n,
        param_index(params, name, i) >= 0,
    ensures
        param_index(params, name, n) == param_index(params, name, i),
    decreases n - i,
{
    if i < n {
        lemma_param_index_found(params, name, i, n - 1);
    }
}

impl BiomeView {
    /// A biome as the editor first makes it: red, with the frequency one, no
    /// texture, no parameters, spanning all depths.
    pub open spec fn fresh() -> BiomeView {
        BiomeView {
            name: "Biome"@,
            frequency: Decimal { micros: 1_000_000 },
            texture: Seq::empty(),
            color: seq![Decimal { micros: 1_000_000 }, Decimal { micros: 0 }, Decimal { micros: 0 }],
            min_depth: (-BIOME_DEPTH_LIMIT) as i32,
            max_depth: BIOME_DEPTH_LIMIT,
            params: Seq::empty(),
        }
    }

    /// The frequency that counts: never less than a hundredth.
    pub open spec fn effective_frequency(self) -> int {
        if self.frequency.micros < MIN_FREQUENCY_MICROS {
            MIN_FREQUENCY_MICROS as int
        } else {
            self.frequency.micros as int
        }
    }

    /// The value of the parameter `name`, zero when the biome has none.
    pub open spec fn param(self, name: Seq<char>) -> Decimal {
        param_within(self.params, name, self.params.len() as int)
    }
}

impl Biome {
    /// A biome as the editor first makes it.
    pub fn new() -> (b: Biome)
        ensures
            b@ == BiomeView::fresh(),
    {
        let b = Biome {
            name: String::from_str("Biome"),
            frequency: Decimal { micros: 1_000_000 },
            texture: String::new(),
            color: [Decimal { micros: 1_000_000 }, Decimal { micros: 0 }, Decimal { micros: 0 }],
            min_depth: -BIOME_DEPTH_LIMIT,
            max_depth: BIOME_DEPTH_LIMIT,
            params: Vec::new(),
        };
        assert(b@.params =~= Seq::<(Seq<char>, Decimal)>::empty());
        assert(b@.color =~= seq![
            Decimal { micros: 1_000_000 },
            Decimal { micros: 0 },
            Decimal { micros: 0 },
        ]);
        b
    }

    /// The frequency with which the biome competes for space. It is never
    /// less than a hundredth, so that a sum of frequencies is never zero.
    pub fn frequency(&self) -> (f: Decimal)
        ensures
            f.micros == self@.effective_frequency(),
    {
        self.frequency.at_least(Decimal { micros: MIN_FREQUENCY_MICROS })
    }

    /// Sets the parameter `name` to `val` and returns the value that it
    /// had, zero if it had none.
    pub fn set_param(&mut self, name: String, val: Decimal) -> (was: Decimal)
        ensures
            was == old(self)@.param(name@),
            final(self)@ == (BiomeView {
                params: with_param(old(self)@.params, name@, val),
                ..old(self)@
            }),
    {
        let ghost before = self@;
        let mut i: usize = 0;
        while i < self.params.len()
            invariant
                i <= self.params.len(),
                self@ == before,
                before == old(self)@,
                param_index(before.params, name@, i as int) == -1,
            decreases self.params.len() - i,
        {
            if self.params[i].name == name {
                proof {
                    assert(before.params[i as int].0 == name@);
                    assert(param_index(before.params, name@, i + 1) == i);
                    lemma_param_index_found(before.params, name@, i + 1, before.params.len() as int);
                    lemma_param_index(before.params, name@, before.params.len() as int);
                }
                let was = self.params[i].val;
                self.params[i].val = val;
                assert(self@.params =~= with_param(before.params, name@, val));
                return was;
            }
            i += 1;
        }
        proof {
            lemma_param_index(before.params, name@, before.params.len() as int);
            lemma_param_absent(before.params, name@, before.params.len() as int);
        }
        self.params.push(BiomeParam { name, val });
        assert(self@.params =~= with_param(before.params, name@, val));
        Decimal { micros: 0 }
    }

    /// The value of the parameter `name`, zero when the biome has none.
    pub fn param(&self, name: &String) -> (val: Decimal)
        ensures
            val == self@.param(name@),
    {
        let mut i: usize = 0;
        while i < self.params.len()
            invariant
                i <= self.params.len(),
                !has_param_within(self@.params, name@, i as int),
            decreases self.params.len() - i,
        {
            if self.params[i].name == *name {
                proof {
                    lemma_param_found(self@.params, name@, i + 1, self.params.len() as int);
                }
                return self.params[i].val;
            }
            i += 1;
        }
        proof {
            lemma_param_absent(self@.params, name@, self.params.len() as int);
        }
        Decimal { micros: 0 }
    }
}

proof fn lemma_param_absent(params: Seq<(Seq<char>, Decimal)>, name: Seq<char>, n: int)
    requires
        !has_param_within(params, name, n),
    ensures
        param_within(params, name, n) == (Decimal { micros: 0 }),
    decreases n,
{
    if n > 0 {
        lemma_param_absent(params, name, n - 1);
    }
}

impl BiomesView {
    /// The table that a new project starts with: one fresh biome, no
    /// parameters, cells of 500 units, a blend of a quarter.
    pub open spec fn fresh() -> BiomesView {
        BiomesView {
            biome_params: Seq::empty(),
            biomes: seq![BiomeView::fresh()],
            biome_size: Decimal { micros: 500_000_000 },
            biome_blending: Decimal { micros: 250_000 },
        }
    }
}

impl Biomes {
    /// The table that a new project starts with.
    pub fn new() -> (b: Biomes)
        ensures
            b@ == BiomesView::fresh(),
    {
        let mut biomes: Vec<Biome> = Vec::new();
        biomes.push(Biome::new());
        let b = Biomes {
            biome_params: Vec::new(),
            biomes,
            biome_size: Decimal { micros: 500_000_000 },
            biome_blending: Decimal { micros: 250_000 },
        };
        assert(b@.biome_params =~= Seq::<Seq<char>>::empty());
        assert(b@.biomes =~= seq![BiomeView::fresh()]);
        b
    }

    /// Declares a parameter for all biomes. An empty name declares nothing.
    pub fn add_parameter(&mut self, name: String)
        ensures
            final(self)@.biomes == old(self)@.biomes,
            final(self)@.biome_size == old(self)@.biome_size,
            final(self)@.biome_blending == old(self)@.biome_blending,
            final(self)@.biome_params == if name@.len() == 0 {
                old(self)@.biome_params
            } else {
                old(self)@.biome_params.push(name@)
            },
    {
        if name.as_str().is_empty() {
            return ;
        }
        let ghost before = self.biome_params.deep_view();
        self.biome_params.push(name);
        assert(self.biome_params.deep_view() =~= before.push(name@));
        assert(self@.biomes =~= old(self)@.biomes);
    }
}

} // verus!
