//! The class endpoints: one class in detail, and the class list.

use vstd::prelude::*;

use crate::error::{res_view, ApiError, ApiErrorV, JsonKind};
use crate::fields::{
    combine, def_i32, def_str, lemma_combine_empty, lemma_combine_fin, lemma_combine_step,
    req_i32, req_obj, req_str, root_obj, v_def_i32, v_def_str, v_req_i32, v_req_obj, v_req_str,
    v_root_obj,
};
use crate::json::{json_of_text, parse_text, Json};

verus! {

/// One row of the class list.
#[derive(Debug, PartialEq, Eq, Clone)]
pub struct SimpleClass {
    pub id: String,
    pub name: String,
    pub overall_difficulty: i32,
}

/// Mathematical image of a [`SimpleClass`].
pub struct SimpleClassV {
    pub id: Seq<char>,
    pub name: Seq<char>,
    pub overall_difficulty: i32,
}

impl View for SimpleClass {
    type V = SimpleClassV;

    open spec fn view(&self) -> SimpleClassV {
        SimpleClassV {
            id: self.id@,
            name: self.name@,
            overall_difficulty: self.overall_difficulty,
        }
    }
}

/// One class in detail.
#[derive(Debug, PartialEq, Eq, Clone)]
pub struct ClassData {
    pub id: String,
    pub name: String,
    pub lore: String,
    pub overall_difficulty: i32,
    pub archetypes: Vec<Archetype>,
}

/// Mathematical image of a [`ClassData`].
pub struct ClassDataV {
    pub id: Seq<char>,
    pub name: Seq<char>,
    pub lore: Seq<char>,
    pub overall_difficulty: i32,
    pub archetypes: Seq<ArchetypeV>,
}

impl View for ClassData {
    type V = ClassDataV;

    open spec fn view(&self) -> ClassDataV {
        ClassDataV {
            id: self.id@,
            name: self.name@,
            lore: self.lore@,
            overall_difficulty: self.overall_difficulty,
            archetypes: archetypes_view(self.archetypes@),
        }
    }
}

/// One archetype of a class.
#[derive(Debug, PartialEq, Eq, Clone)]
pub struct Archetype {
    pub id: String,
    pub name: String,
    pub difficulty: i32,
    pub damage: i32,
    pub defence: i32,
    pub range: i32,
    pub speed: i32,
}

/// Mathematical image of an [`Archetype`].
pub struct ArchetypeV {
    pub id: Seq<char>,
    pub name: Seq<char>,
    pub difficulty: i32,
    pub damage: i32,
    pub defence: i32,
    pub range: i32,
    pub speed: i32,
}

impl View for Archetype {
    type V = ArchetypeV;

    open spec fn view(&self) -> ArchetypeV {
        ArchetypeV {
            id: self.id@,
            name: self.name@,
            difficulty: self.difficulty,
            damage: self.damage,
            defence: self.defence,
            range: self.range,
            speed: self.speed,
        }
    }
}

/// One entry of the archetype dictionary: the key is the archetype's
/// id; the value must be an object, whose rating fields default to
/// zero.
pub open spec fn v_archetype_entry(p: (String, Json)) -> Result<ArchetypeV, ApiErrorV> {
    match p.1 {
        Json::Obj(o) => Ok(
            ArchetypeV {
                id: p.0@,
                name: v_def_str(o@, "name"@),
                difficulty: v_def_i32(o@, "difficulty"@, 0),
                damage: v_def_i32(o@, "damage"@, 0),
                defence: v_def_i32(o@, "defence"@, 0),
                range: v_def_i32(o@, "range"@, 0),
                speed: v_def_i32(o@, "speed"@, 0),
            },
        ),
        _ => Err(ApiErrorV::Schema { field: p.0@, expected: JsonKind::Obj }),
    }
}

pub open spec fn v_archetypes_from(entries: Seq<(String, Json)>, i: int) -> Result<
    Seq<ArchetypeV>,
    ApiErrorV,
>
    decreases entries.len() - i,
{
    if i < 0 || i >= entries.len() {
        Ok(Seq::empty())
    } else {
        match v_archetype_entry(entries[i]) {
            Err(e) => Err(e),
            Ok(a) => combine(seq![a], v_archetypes_from(entries, i + 1)),
        }
    }
}

/// One class document: identity fields are required; the archetype
/// dictionary is a required container mapped fail-fast.
pub open spec fn v_class(j: Json) -> Result<ClassDataV, ApiErrorV> {
    match v_root_obj(j) {
        Err(e) => Err(e),
        Ok(o) => match v_req_str(o, "id"@) {
            Err(e) => Err(e),
            Ok(id) => match v_req_str(o, "name"@) {
                Err(e) => Err(e),
                Ok(name) => match v_req_str(o, "lore"@) {
                    Err(e) => Err(e),
                    Ok(lore) => match v_req_i32(o, "overallDifficulty"@) {
                        Err(e) => Err(e),
                        Ok(overall_difficulty) => match v_req_obj(o, "archetypes"@) {
                            Err(e) => Err(e),
                            Ok(arch) => match v_archetypes_from(arch, 0) {
                                Err(e) => Err(e),
                                Ok(archetypes) => Ok(
                                    ClassDataV {
                                        id,
                                        name,
                                        lore,
                                        overall_difficulty,
                                        archetypes,
                                    },
                                ),
                            },
                        },
                    },
                },
            },
        },
    }
}

pub open spec fn v_class_response(s: Seq<char>) -> Result<ClassDataV, ApiErrorV> {
    match json_of_text(s) {
        None => Err(ApiErrorV::Format),
        Some(j) => v_class(j),
    }
}

pub open spec fn archetypes_view(s: Seq<Archetype>) -> Seq<ArchetypeV> {
    s.map_values(|a: Archetype| a@)
}

/// Map one class document.
pub fn class_from_json(j: &Json) -> (r: Result<ClassData, ApiError>)
    ensures
        res_view(r) == v_class(*j),
{
    let o = match root_obj(j) {
        Ok(o) => o,
        Err(e) => {
            return Err(e);
        },
    };
    let id = match req_str(o, "id") {
        Ok(v) => v,
        Err(e) => {
            return Err(e);
        },
    };
    let name = match req_str(o, "name") {
        Ok(v) => v,
        Err(e) => {
            return Err(e);
        },
    };
    let lore = match req_str(o, "lore") {
        Ok(v) => v,
        Err(e) => {
            return Err(e);
        },
    };
    let overall_difficulty = match req_i32(o, "overallDifficulty") {
        Ok(v) => v,
        Err(e) => {
            return Err(e);
        },
    };
    let arch = match req_obj(o, "archetypes") {
        Ok(v) => v,
        Err(e) => {
            return Err(e);
        },
    };
    let mut acc: Vec<Archetype> = Vec::new();
    let n = arch.len();
    proof {
        lemma_combine_empty(v_archetypes_from(arch@, 0));
        assert(archetypes_view(acc@) =~= Seq::<ArchetypeV>::empty());
    }
    for i in 0..n
        invariant
            n == arch@.len(),
            v_class(*j) == (match v_archetypes_from(arch@, 0) {
                Err(e) => Err(e),
                Ok(archetypes) => Ok(
                    ClassDataV {
                        id: id@,
                        name: name@,
                        lore: lore@,
                        overall_difficulty,
                        archetypes,
                    },
                ),
            }),
            v_archetypes_from(arch@, 0) == combine(
                archetypes_view(acc@),
                v_archetypes_from(arch@, i as int),
            ),
    {
        let key = &arch[i].0;
        let details = match &arch[i].1 {
            Json::Obj(entries) => entries,
            _ => {
                return Err(ApiError::Schema { field: key.clone(), expected: JsonKind::Obj });
            },
        };
        let a = Archetype {
            id: key.clone(),
            name: def_str(details, "name"),
            difficulty: def_i32(details, "difficulty", 0),
            damage: def_i32(details, "damage", 0),
            defence: def_i32(details, "defence", 0),
            range: def_i32(details, "range", 0),
            speed: def_i32(details, "speed", 0),
        };
        proof {
            lemma_combine_step(archetypes_view(acc@), a@, v_archetypes_from(arch@, i + 1));
            assert(archetypes_view(acc@.push(a)) =~= archetypes_view(acc@).push(a@));
        }
        acc.push(a);
    }
    proof {
        lemma_combine_fin(archetypes_view(acc@));
    }
    Ok(ClassData { id, name, lore, overall_difficulty, archetypes: acc })
}

/// Map a whole class-detail response body.
pub fn class_from_response(text: &str) -> (r: Result<ClassData, ApiError>)
    ensures
        res_view(r) == v_class_response(text@),
{
    match parse_text(text) {
        Ok(j) => class_from_json(&j),
        Err(e) => Err(e),
    }
}

/// One entry of the class list: the key is the class id; the value
/// must be an object, whose fields are defaulted.
pub open spec fn v_class_entry(p: (String, Json)) -> Result<SimpleClassV, ApiErrorV> {
    match p.1 {
        Json::Obj(o) => Ok(
            SimpleClassV {
                id: p.0@,
                name: v_def_str(o@, "name"@),
                overall_difficulty: v_def_i32(o@, "overallDifficulty"@, 0),
            },
        ),
        _ => Err(ApiErrorV::Schema { field: p.0@, expected: JsonKind::Obj }),
    }
}

pub open spec fn v_classes_from(entries: Seq<(String, Json)>, i: int) -> Result<
    Seq<SimpleClassV>,
    ApiErrorV,
>
    decreases entries.len() - i,
{
    if i < 0 || i >= entries.len() {
        Ok(Seq::empty())
    } else {
        match v_class_entry(entries[i]) {
            Err(e) => Err(e),
            Ok(c) => combine(seq![c], v_classes_from(entries, i + 1)),
        }
    }
}

/// The class-list document: an object keyed by class id, mapped
/// fail-fast.
pub open spec fn v_classes(j: Json) -> Result<Seq<SimpleClassV>, ApiErrorV> {
    match v_root_obj(j) {
        Err(e) => Err(e),
        Ok(entries) => v_classes_from(entries, 0),
    }
}

pub open spec fn v_classes_response(s: Seq<char>) -> Result<Seq<SimpleClassV>, ApiErrorV> {
    match json_of_text(s) {
        None => Err(ApiErrorV::Format),
        Some(j) => v_classes(j),
    }
}

pub open spec fn classes_view(s: Seq<SimpleClass>) -> Seq<SimpleClassV> {
    s.map_values(|c: SimpleClass| c@)
}

/// Map the class-list document.
pub fn classes_from_json(j: &Json) -> (r: Result<Vec<SimpleClass>, ApiError>)
    ensures
        match r {
            Ok(cs) => v_classes(*j) == Ok::<_, ApiErrorV>(classes_view(cs@)),
            Err(e) => v_classes(*j) == Err::<Seq<SimpleClassV>, _>(e@),
        },
{
    let entries = match root_obj(j) {
        Ok(o) => o,
        Err(e) => {
            return Err(e);
        },
    };
    let mut acc: Vec<SimpleClass> = Vec::new();
    let n = entries.len();
    proof {
        lemma_combine_empty(v_classes_from(entries@, 0));
        assert(classes_view(acc@) =~= Seq::<SimpleClassV>::empty());
    }
    for i in 0..n
        invariant
            n == entries@.len(),
            v_classes(*j) == combine(classes_view(acc@), v_classes_from(entries@, i as int)),
    {
        let key = &entries[i].0;
        let details = match &entries[i].1 {
            Json::Obj(o) => o,
            _ => {
                return Err(ApiError::Schema { field: key.clone(), expected: JsonKind::Obj });
            },
        };
        let c = SimpleClass {
            id: key.clone(),
            name: def_str(details, "name"),
            overall_difficulty: def_i32(details, "overallDifficulty", 0),
        };
        proof {
            lemma_combine_step(classes_view(acc@), c@, v_classes_from(entries@, i + 1));
            assert(classes_view(acc@.push(c)) =~= classes_view(acc@).push(c@));
        }
        acc.push(c);
    }
    proof {
        lemma_combine_fin(classes_view(acc@));
    }
    Ok(acc)
}

/// Map a whole class-list response body.
pub fn classes_from_response(text: &str) -> (r: Result<Vec<SimpleClass>, ApiError>)
    ensures
        match r {
            Ok(cs) => v_classes_response(text@) == Ok::<_, ApiErrorV>(classes_view(cs@)),
            Err(e) => v_classes_response(text@) == Err::<Seq<SimpleClassV>, _>(e@),
        },
{
    match parse_text(text) {
        Ok(j) => classes_from_json(&j),
        Err(e) => Err(e),
    }
}

} // verus!
