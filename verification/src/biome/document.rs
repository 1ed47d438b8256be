//! The biome table as a document, and a document as a biome table.

use vstd::prelude::*;
use vstd::string::*;
use crate::biome::{Biome, BiomeParam, BiomeView, Biomes, BiomesView, BIOME_DEPTH_LIMIT};
use crate::decimal::Decimal;
use crate::json::{json_view, views_of, Field, Json, JsonView};

verus! {

/// A whole number as a document.
pub open spec fn int_json(i: i32) -> JsonView {
    if i >= 0 {
        JsonView::UInt(i as u64)
    } else {
        JsonView::Int(i as i64)
    }
}

/// A biome as a document.
pub open spec fn biome_json(b: BiomeView) -> JsonView {
    JsonView::Object(
        seq![
            ("name"@, JsonView::Text(b.name)),
            ("frequency"@, JsonView::Real(b.frequency)),
            (
                "params"@,
                JsonView::Object(
                    Seq::new(b.params.len(), |i: int| (b.params[i].0, JsonView::Real(b.params[i].1))),
                ),
            ),
            (
                "color"@,
                JsonView::Array(
                    seq![JsonView::Real(b.color[0]), JsonView::Real(b.color[1]), JsonView::Real(b.color[2])],
                ),
            ),
            ("texture"@, JsonView::Text(b.texture)),
            ("min_depth"@, int_json(b.min_depth)),
            ("max_depth"@, int_json(b.max_depth)),
        ],
    )
}

/// The biome table as a document.
pub open spec fn biomes_json(b: BiomesView) -> JsonView {
    JsonView::Object(
        seq![
            (
                "params"@,
                JsonView::Array(Seq::new(b.biome_params.len(), |i: int| JsonView::Text(b.biome_params[i]))),
            ),
            ("size"@, JsonView::Real(b.biome_size)),
            ("blending"@, JsonView::Real(b.biome_blending)),
            ("biomes"@, JsonView::Array(Seq::new(b.biomes.len(), |i: int| biome_json(b.biomes[i])))),
        ],
    )
}

/// The number that the field `key` of `j` holds, or `fallback` if it holds
/// none.
pub open spec fn decimal_or(j: JsonView, key: Seq<char>, fallback: Decimal) -> Decimal {
    match j.get(key) {
        Some(v) => match v.as_decimal() {
            Some(d) => d,
            None => fallback,
        },
        None => fallback,
    }
}

/// The depth that the field `key` of `j` holds, or `fallback` if it holds
/// none. A number beyond what a depth can be gives the nearest depth.
pub open spec fn depth_or(j: JsonView, key: Seq<char>, fallback: i32) -> i32 {
    match j.get(key) {
        Some(v) => match v.as_i64() {
            Some(d) => if d > i32::MAX {
                i32::MAX
            } else if d < i32::MIN {
                i32::MIN
            } else {
                d as i32
            },
            None => fallback,
        },
        None => fallback,
    }
}

/// The text that the field `key` of `j` holds, or no text if it holds none.
pub open spec fn text_or_empty(j: JsonView, key: Seq<char>) -> Seq<char> {
    match j.get(key) {
        Some(v) => match v.as_text() {
            Some(s) => s,
            None => Seq::empty(),
        },
        None => Seq::empty(),
    }
}

/// The texts among the first `n` items.
pub open spec fn names_read(items: Seq<JsonView>, n: int) -> Seq<Seq<char>>
    decreases n,
{
    if n <= 0 {
        Seq::empty()
    } else {
        match items[n - 1].as_text() {
            Some(s) => names_read(items, n - 1).push(s),
            None => names_read(items, n - 1),
        }
    }
}

/// The colour that a biome takes from its document: red if the document
/// names none, nothing if it names one that is not three numbers.
pub open spec fn color_of_json(j: JsonView) -> Option<Seq<Decimal>> {
    match j.get("color"@) {
        None => Some(seq![Decimal { micros: 1_000_000 }, Decimal { micros: 0 }, Decimal { micros: 0 }]),
        Some(c) => match c.as_array() {
            Some(items) => if items.len() >= 3 && items[0].as_decimal() is Some
                && items[1].as_decimal() is Some && items[2].as_decimal() is Some {
                Some(
                    seq![
                        items[0].as_decimal().unwrap(),
                        items[1].as_decimal().unwrap(),
                        items[2].as_decimal().unwrap(),
                    ],
                )
            } else {
                None
            },
            None => None,
        },
    }
}

/// The values that the document `values` gives to the declared parameters
/// `names`; a parameter without a number there gets zero.
pub open spec fn params_read(names: Seq<Seq<char>>, values: JsonView) -> Seq<(Seq<char>, Decimal)> {
    Seq::new(names.len(), |i: int| (names[i], decimal_or(values, names[i], Decimal { micros: 0 })))
}

/// The biome that a document stands for, given the declared parameters, if
/// it stands for one.
pub open spec fn biome_of_json(j: JsonView, names: Seq<Seq<char>>) -> Option<BiomeView> {
    if !(j is Object) {
        None
    } else {
        match (j.get("params"@), color_of_json(j), j.get("name"@)) {
            (Some(values), Some(color), Some(name)) => if values is Object && name is Text {
                Some(
                    BiomeView {
                        name: name.as_text().unwrap(),
                        frequency: decimal_or(j, "frequency"@, Decimal { micros: 1_000_000 }),
                        texture: text_or_empty(j, "texture"@),
                        color,
                        min_depth: depth_or(j, "min_depth"@, (-BIOME_DEPTH_LIMIT) as i32),
                        max_depth: depth_or(j, "max_depth"@, BIOME_DEPTH_LIMIT),
                        params: params_read(names, values),
                    },
                )
            } else {
                None
            },
            _ => None,
        }
    }
}

/// The biomes that the first `n` documents stand for, or nothing if one of
/// them stands for none.
pub open spec fn biomes_read(items: Seq<JsonView>, names: Seq<Seq<char>>, n: int) -> Option<
    Seq<BiomeView>,
>
    decreases n,
{
    if n <= 0 {
        Some(Seq::empty())
    } else {
        match (biomes_read(items, names, n - 1), biome_of_json(items[n - 1], names)) {
            (Some(biomes), Some(b)) => Some(biomes.push(b)),
            _ => None,
        }
    }
}

/// The biome table that a document stands for, if it stands for one.
pub open spec fn biomes_of_json(j: JsonView) -> Option<BiomesView> {
    if !(j is Object) {
        None
    } else {
        match (j.get("params"@), j.get("biomes"@)) {
            (Some(params), Some(biomes)) => match (params.as_array(), biomes.as_array()) {
                (Some(names), Some(items)) => {
                    let biome_params = names_read(names, names.len() as int);
                    match biomes_read(items, biome_params, items.len() as int) {
                        Some(biomes) => Some(
                            BiomesView {
                                biome_params,
                                biomes,
                                biome_size: decimal_or(j, "size"@, Decimal { micros: 500_000_000 }),
                                biome_blending: decimal_or(j, "blending"@, Decimal { micros: 250_000 }),
                            },
                        ),
                        None => None,
                    }
                },
                _ => None,
            },
            _ => None,
        }
    }
}

fn field(key: &str, val: Json) -> (f: Field)
    ensures
        f.key@ == key@,
        f.val == val,
{
    Field { key: String::from_str(key), val }
}

fn int_to_json(i: i32) -> (j: Json)
    ensures
        j@ == int_json(i),
{
    if i >= 0 {
        Json::UInt(i as u64)
    } else {
        Json::Int(i as i64)
    }
}

fn read_decimal_or(j: &Json, key: &str, fallback: Decimal) -> (d: Decimal)
    ensures
        d == decimal_or(j@, key@, fallback),
{
    match j.get(key) {
        Some(v) => match v.as_decimal() {
            Some(d) => d,
            None => fallback,
        },
        None => fallback,
    }
}

fn read_depth_or(j: &Json, key: &str, fallback: i32) -> (d: i32)
    ensures
        d == depth_or(j@, key@, fallback),
{
    match j.get(key) {
        Some(v) => match v.as_i64() {
            Some(d) => if d > i32::MAX as i64 {
                i32::MAX
            } else if d < i32::MIN as i64 {
                i32::MIN
            } else {
                d as i32
            },
            None => fallback,
        },
        None => fallback,
    }
}

fn read_text_or_empty(j: &Json, key: &str) -> (s: String)
    ensures
        s@ == text_or_empty(j@, key@),
{
    match j.get(key) {
        Some(v) => match v.as_str() {
            Some(s) => String::from_str(s),
            None => String::new(),
        },
        None => String::new(),
    }
}

fn read_color(j: &Json) -> (r: Option<[Decimal; 3]>)
    ensures
        match r {
            Some(c) => color_of_json(j@) == Some(c@),
            None => color_of_json(j@) is None,
        },
{
    match j.get("color") {
        None => {
            let c = [Decimal { micros: 1_000_000 }, Decimal { micros: 0 }, Decimal { micros: 0 }];
            assert(c@ =~= seq![
                Decimal { micros: 1_000_000 },
                Decimal { micros: 0 },
                Decimal { micros: 0 },
            ]);
            Some(c)
        },
        Some(c) => match c.as_array() {
            Some(items) => {
                if items.len() < 3 {
                    return None;
                }
                match (items[0].as_decimal(), items[1].as_decimal(), items[2].as_decimal()) {
                    (Some(r), Some(g), Some(b)) => {
                        let c = [r, g, b];
                        assert(c@ =~= seq![r, g, b]);
                        Some(c)
                    },
                    _ => None,
                }
            },
            None => None,
        },
    }
}

fn read_params(names: &Vec<String>, values: &Json) -> (params: Vec<BiomeParam>)
    ensures
        Seq::new(params@.len(), |i: int| (params@[i].name@, params@[i].val)) == params_read(
            names.deep_view(),
            values@,
        ),
{
    let mut params: Vec<BiomeParam> = Vec::new();
    let mut i: usize = 0;
    while i < names.len()
        invariant
            i <= names.len(),
            params@.len() == i,
            forall|k: int|
                0 <= k < i ==> (#[trigger] params@[k]).name@ == names@[k]@ && params@[k].val
                    == decimal_or(values@, names@[k]@, Decimal { micros: 0 }),
        decreases names.len() - i,
    {
        let val = read_decimal_or(values, names[i].as_str(), Decimal { micros: 0 });
        params.push(BiomeParam { name: names[i].clone(), val });
        i += 1;
    }
    assert(Seq::new(params@.len(), |i: int| (params@[i].name@, params@[i].val)) =~= params_read(
        names.deep_view(),
        values@,
    ));
    params
}

fn biome_from_json(j: &Json, names: &Vec<String>) -> (r: Option<Biome>)
    ensures
        match r {
            Some(b) => biome_of_json(j@, names.deep_view()) == Some(b@),
            None => biome_of_json(j@, names.deep_view()) is None,
        },
{
    match j {
        Json::Object(_) => {},
        _ => {
            return None;
        },
    }
    let values = match j.get("params") {
        Some(values) => values,
        None => {
            return None;
        },
    };
    match values {
        Json::Object(_) => {},
        _ => {
            return None;
        },
    }
    let color = match read_color(j) {
        Some(color) => color,
        None => {
            return None;
        },
    };
    let name = match j.get("name") {
        Some(name) => match name.as_str() {
            Some(name) => String::from_str(name),
            None => {
                return None;
            },
        },
        None => {
            return None;
        },
    };
    let biome = Biome {
        name,
        frequency: read_decimal_or(j, "frequency", Decimal { micros: 1_000_000 }),
        texture: read_text_or_empty(j, "texture"),
        color,
        min_depth: read_depth_or(j, "min_depth", -BIOME_DEPTH_LIMIT),
        max_depth: read_depth_or(j, "max_depth", BIOME_DEPTH_LIMIT),
        params: read_params(names, values),
    };
    Some(biome)
}

fn biome_to_json(b: &Biome) -> (j: Json)
    ensures
        j@ == biome_json(b@),
{
    proof {
        reveal_with_fuel(json_view, 3);
    }
    let mut values: Vec<Field> = Vec::new();
    let mut i: usize = 0;
    while i < b.params.len()
        invariant
            i <= b.params.len(),
            values@.len() == i,
            forall|k: int|
                0 <= k < i ==> (#[trigger] values@[k]).key@ == b.params@[k].name@ && values@[k].val@
                    == JsonView::Real(b.params@[k].val),
        decreases b.params.len() - i,
    {
        values.push(Field { key: b.params[i].name.clone(), val: Json::Real(b.params[i].val) });
        i += 1;
    }
    let params = Json::Object(values);
    assert(params@->Object_0 =~= Seq::new(
        b@.params.len(),
        |i: int| (b@.params[i].0, JsonView::Real(b@.params[i].1)),
    ));
    let mut color: Vec<Json> = Vec::new();
    color.push(Json::Real(b.color[0]));
    color.push(Json::Real(b.color[1]));
    color.push(Json::Real(b.color[2]));
    let color = Json::Array(color);
    assert(color@->Array_0 =~= seq![
        JsonView::Real(b@.color[0]),
        JsonView::Real(b@.color[1]),
        JsonView::Real(b@.color[2]),
    ]);
    let mut fields: Vec<Field> = Vec::new();
    fields.push(field("name", Json::Text(b.name.clone())));
    fields.push(field("frequency", Json::Real(b.frequency)));
    fields.push(field("params", params));
    fields.push(field("color", color));
    fields.push(field("texture", Json::Text(b.texture.clone())));
    fields.push(field("min_depth", int_to_json(b.min_depth)));
    fields.push(field("max_depth", int_to_json(b.max_depth)));
    let j = Json::Object(fields);
    proof {
        let have = j@->Object_0;
        let want = biome_json(b@)->Object_0;
        assert(have.len() == 7);
        assert(have[0] == want[0]);
        assert(have[1] == want[1]);
        assert(have[2] == want[2]);
        assert(have[3] == want[3]);
        assert(have[4] == want[4]);
        assert(have[5] == want[5]);
        assert(have[6] == want[6]);
        assert(have =~= want);
    }
    j
}

proof fn lemma_biomes_unread(items: Seq<JsonView>, names: Seq<Seq<char>>, i: int, n: int)
    requires
        0 < i <= n,
        biomes_read(items, names, i) is None,
    ensures
        biomes_read(items, names, n) is None,
    decreases n - i,
{
    if i < n {
        lemma_biomes_unread(items, names, i, n - 1);
    }
}

fn read_names(names: &Vec<Json>) -> (read: Vec<String>)
    ensures
        read.deep_view() == names_read(views_of(names@), names@.len() as int),
{
    let ghost docs = views_of(names@);
    let mut read: Vec<String> = Vec::new();
    let mut i: usize = 0;
    while i < names.len()
        invariant
            i <= names.len(),
            docs == views_of(names@),
            read.deep_view() == names_read(docs, i as int),
        decreases names.len() - i,
    {
        let ghost before = read.deep_view();
        assert(docs[i as int] == names@[i as int]@);
        match names[i].as_str() {
            Some(name) => {
                read.push(String::from_str(name));
                assert(read.deep_view() =~= before.push(name@));
            },
            None => {},
        }
        i += 1;
    }
    read
}

fn read_biomes(items: &Vec<Json>, names: &Vec<String>) -> (r: Option<Vec<Biome>>)
    ensures
        match r {
            Some(biomes) => biomes_read(views_of(items@), names.deep_view(), items@.len() as int)
                == Some(Seq::new(biomes@.len(), |k: int| biomes@[k]@)),
            None => biomes_read(views_of(items@), names.deep_view(), items@.len() as int) is None,
        },
{
    let ghost docs = views_of(items@);
    let mut biomes: Vec<Biome> = Vec::new();
    let mut i: usize = 0;
    while i < items.len()
        invariant
            i <= items.len(),
            docs == views_of(items@),
            biomes_read(docs, names.deep_view(), i as int) == Some(
                Seq::new(biomes@.len(), |k: int| biomes@[k]@),
            ),
        decreases items.len() - i,
    {
        let ghost before = Seq::new(biomes@.len(), |k: int| biomes@[k]@);
        assert(docs[i as int] == items@[i as int]@);
        match biome_from_json(&items[i], names) {
            Some(biome) => {
                biomes.push(biome);
                assert(Seq::new(biomes@.len(), |k: int| biomes@[k]@) =~= before.push(biome@));
            },
            None => {
                proof {
                    lemma_biomes_unread(docs, names.deep_view(), i + 1, items.len() as int);
                }
                return None;
            },
        }
        i += 1;
    }
    Some(biomes)
}

impl Biomes {
    /// The biome table as a document.
    pub fn to_json(&self) -> (j: Json)
        ensures
            j@ == biomes_json(self@),
    {
        proof {
            reveal_with_fuel(json_view, 3);
        }
        let mut names: Vec<Json> = Vec::new();
        let mut i: usize = 0;
        while i < self.biome_params.len()
            invariant
                i <= self.biome_params.len(),
                names@.len() == i,
                forall|k: int| 0 <= k < i ==> (#[trigger] names@[k])@ == JsonView::Text(self.biome_params@[k]@),
            decreases self.biome_params.len() - i,
        {
            names.push(Json::Text(self.biome_params[i].clone()));
            i += 1;
        }
        let names = Json::Array(names);
        assert(names@->Array_0 =~= Seq::new(
            self@.biome_params.len(),
            |i: int| JsonView::Text(self@.biome_params[i]),
        ));
        let mut biomes: Vec<Json> = Vec::new();
        let mut i: usize = 0;
        while i < self.biomes.len()
            invariant
                i <= self.biomes.len(),
                biomes@.len() == i,
                forall|k: int| 0 <= k < i ==> (#[trigger] biomes@[k])@ == biome_json(self.biomes@[k]@),
            decreases self.biomes.len() - i,
        {
            biomes.push(biome_to_json(&self.biomes[i]));
            i += 1;
        }
        let biomes = Json::Array(biomes);
        assert(biomes@->Array_0 =~= Seq::new(
            self@.biomes.len(),
            |i: int| biome_json(self@.biomes[i]),
        ));
        let mut fields: Vec<Field> = Vec::new();
        fields.push(field("params", names));
        fields.push(field("size", Json::Real(self.biome_size)));
        fields.push(field("blending", Json::Real(self.biome_blending)));
        fields.push(field("biomes", biomes));
        let j = Json::Object(fields);
        proof {
            let have = j@->Object_0;
            let want = biomes_json(self@)->Object_0;
            assert(have.len() == 4);
            assert(have[0] == want[0]);
            assert(have[1] == want[1]);
            assert(have[2] == want[2]);
            assert(have[3] == want[3]);
            assert(have =~= want);
        }
        j
    }

    /// The biome table that a document stands for. What a biome lacks is
    /// filled in: the frequency one, no texture, red, all depths, zero for a
    /// parameter. A document in which the parameters or the biomes are
    /// missing, or a biome is damaged, gives nothing.
    pub fn from_json(data: &Json) -> (r: Option<Biomes>)
        ensures
            match r {
                Some(b) => biomes_of_json(data@) == Some(b@),
                None => biomes_of_json(data@) is None,
            },
    {
        match data {
            Json::Object(_) => {},
            _ => {
                return None;
            },
        }
        let names = match data.get("params") {
            Some(params) => params.as_array(),
            None => None,
        };
        let items = match data.get("biomes") {
            Some(biomes) => biomes.as_array(),
            None => None,
        };
        let (names, items) = match (names, items) {
            (Some(names), Some(items)) => (names, items),
            _ => {
                return None;
            },
        };
        let biome_params = read_names(names);
        let biomes = match read_biomes(items, &biome_params) {
            Some(biomes) => biomes,
            None => {
                return None;
            },
        };
        Some(
            Biomes {
                biome_params,
                biomes,
                biome_size: read_decimal_or(data, "size", Decimal { micros: 500_000_000 }),
                biome_blending: read_decimal_or(data, "blending", Decimal { micros: 250_000 }),
            },
        )
    }
}

} // verus!
