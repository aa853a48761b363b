//! Reading the run's configuration from the book's configuration
//! section.
//!
//! The section, when present, is a table: `dependencies` holds a list
//! of crate-name strings, `quiet` a boolean.  A missing section and
//! missing fields take the defaults; a section or a field of the wrong
//! shape is a configuration error.

use vstd::prelude::*;
use crate::Config;
use crate::errors::{Error, ErrorKind};
use crate::manifest::{
    Value, ValueModel, TableModel, table_get, model_wf, value_model, models_of,
    lemma_table_value_model, lemma_array_value_model, name_views,
};

verus! {

broadcast use vstd::std_specs::vec::group_vec_axioms, vstd::seq::group_seq_axioms, vstd::string::group_string_axioms;

/// The strings of a list of values, where every value is a string.
pub open spec fn str_names(ms: Seq<ValueModel>) -> Seq<Seq<char>> {
    ms.map_values(|m: ValueModel| m->Str_0)
}

/// The dependency names a configuration value declares: present when
/// the value is an array holding only strings.
pub open spec fn dep_names_of(v: ValueModel) -> Option<Seq<Seq<char>>> {
    match v {
        ValueModel::Array(items) => if forall|i: int| 0 <= i < items.len() ==> items[i] is Str {
            Some(str_names(items))
        } else {
            None
        },
        _ => None,
    }
}

/// The dependency names of a configuration table: the empty list when
/// the field is absent.
pub open spec fn deps_of(t: TableModel) -> Option<Seq<Seq<char>>> {
    match table_get(t, "dependencies"@) {
        None => Some(Seq::empty()),
        Some(v) => dep_names_of(v),
    }
}

/// The quiet flag of a configuration table: on by default.
pub open spec fn quiet_of(t: TableModel) -> Option<bool> {
    match table_get(t, "quiet"@) {
        None => Some(true),
        Some(ValueModel::Bool(b)) => Some(b),
        Some(_) => None,
    }
}

/// What the configuration section means: the defaults when it is
/// absent, its two fields when it is a well-shaped table, and nothing
/// when it or a field has the wrong shape.
pub open spec fn spec_parse_config(raw: Option<ValueModel>) -> Option<(Seq<Seq<char>>, bool)> {
    match raw {
        None => Some((Seq::empty(), true)),
        Some(ValueModel::Table(t)) => match (deps_of(t), quiet_of(t)) {
            (Some(d), Some(q)) => Some((d, q)),
            _ => None,
        },
        Some(_) => None,
    }
}

/// The model of an optional configuration value.
pub open spec fn raw_model(raw: Option<&Value>) -> Option<ValueModel> {
    match raw {
        Some(v) => Some(value_model(*v)),
        None => None,
    }
}

/// Reads the configuration section: the defaults where it is absent,
/// its fields where it is well shaped, and a configuration error where
/// it is not.
#[verifier::loop_isolation(false)]
pub fn parse_config(raw: Option<&Value>) -> (r: Result<Config, Error>)
    requires
        raw matches Some(v) ==> model_wf(value_model(*v)),
    ensures
        match spec_parse_config(raw_model(raw)) {
            Some(dq) => r matches Ok(c) && name_views(c.dependencies@) == dq.0 && c.quiet == dq.1,
            None => r matches Err(e) && e.kind == ErrorKind::ConfigDeserialization,
        },
{
    let v = match raw {
        None => {
            let c = Config::default();
            proof {
                assert(name_views(c.dependencies@) =~= Seq::<Seq<char>>::empty());
            }
            return Ok(c);
        },
        Some(v) => v,
    };
    let t = match v {
        Value::Table(t) => t,
        _ => {
            return Err(
                Error::new(
                    ErrorKind::ConfigDeserialization,
                    "the configuration section is not a table".to_owned(),
                ),
            );
        },
    };
    proof {
        lemma_table_value_model(*t);
    }
    let mut deps: Vec<String> = Vec::new();
    match t.get("dependencies") {
        None => {
            proof {
                assert(name_views(deps@) =~= Seq::<Seq<char>>::empty());
            }
        },
        Some(dv) => match dv {
            Value::Array(items) => {
            proof {
                lemma_array_value_model(*items);
                assert(value_model(*dv) == ValueModel::Array(models_of(items@)));
            }
            let n = items.len();
            let mut j: usize = 0;
            while j < n
                invariant
                    j <= n,
                    n == items@.len(),
                    deps@.len() == j,
                    forall|i: int| 0 <= i < j ==> models_of(items@)[i] is Str,
                    forall|i: int|
                        0 <= i < j ==> (#[trigger] deps@[i])@ == models_of(items@)[i]->Str_0,
                decreases n - j,
            {
                match &items[j] {
                    Value::Str(s) => {
                        deps.push(s.clone());
                        proof {
                            assert(models_of(items@)[j as int] == value_model(
                                items@[j as int],
                            ));
                            assert(value_model(items@[j as int]) == ValueModel::Str(s@));
                            assert(deps@[j as int]@ == s@);
                        }
                    },
                    _ => {
                        proof {
                            assert(models_of(items@)[j as int] == value_model(
                                items@[j as int],
                            ));
                            assert(!(models_of(items@)[j as int] is Str));
                            assert(dep_names_of(ValueModel::Array(models_of(items@))) is None);
                        }
                        return Err(
                            Error::new(
                                ErrorKind::ConfigDeserialization,
                                "a dependency name is not a string".to_owned(),
                            ),
                        );
                    },
                }
                j += 1;
            }
            proof {
                assert(name_views(deps@) =~= str_names(models_of(items@)));
            }
            },
            _ => {
                return Err(
                    Error::new(
                        ErrorKind::ConfigDeserialization,
                        "the dependency list is not an array".to_owned(),
                    ),
                );
            },
        },
    }
    let quiet: bool;
    match t.get("quiet") {
        None => {
            quiet = true;
        },
        Some(qv) => match qv {
            Value::Bool(b) => {
                quiet = *b;
            },
            _ => {
                return Err(
                    Error::new(
                        ErrorKind::ConfigDeserialization,
                        "the quiet flag is not a boolean".to_owned(),
                    ),
                );
            },
        },
    }
    Ok(Config { dependencies: deps, quiet })
}

} // verus!
