//! Upgrades of older layouts, which keep legacy receipt bytes and
//! unprovable evidence as they are.
use super::validation::fact_terminal;
use crate::protocol::{EventEnvelope, payload_turn};
use vstd::prelude::*;
use vstd::string::StringExecFns;

verus! {

/// What an upgrade from `version` rebuilds: the current layout of the
/// reduced-state tables below version 3, and the catalog tables below 4.
#[derive(Clone, Copy, Debug, PartialEq, Eq, Structural)]
pub struct MigrationPlan {
    pub rebuild: bool,
    pub catalog: bool,
}

/// The plan for `version`.
pub fn migration_plan(version: i64) -> (r: MigrationPlan)
    ensures
        r.rebuild == (version < 3),
        r.catalog == (version < 4),
{
    MigrationPlan { rebuild: version < 3, catalog: version < 4 }
}

/// The legacy columns copied when a table is rebuilt.
pub open spec fn legacy_columns_of(name: Seq<char>) -> Option<Seq<char>> {
    if name == "producers"@ {
        Some("producer,generation,run,harness,next_seq,active"@)
    } else if name == "metadata"@ {
        Some("id,revision,history_days"@)
    } else if name == "projections"@ {
        Some("run,process,observation,turn,turn_id"@)
    } else if name == "attention"@ {
        Some("producer,generation,event,run,reason,reviewed"@)
    } else if name == "outbox"@ {
        Some("producer,generation,event,run,state,created,changed"@)
    } else if name == "tombstones"@ {
        Some("producer,generation,run,turn_id,event,created"@)
    } else {
        None
    }
}

/// Looks up `legacy_columns_of`.
pub fn legacy_columns(name: &str) -> (r: Option<&'static str>)
    ensures
        match r {
            Some(c) => legacy_columns_of(name@) == Some(c@),
            None => legacy_columns_of(name@) is None,
        },
{
    let eq = |a: &str, b: &str| -> (r: bool)
        ensures
            r == (a@ == b@),
        { crate::text::str_eq(a, b) };
    if eq(name, "producers") {
        Some("producer,generation,run,harness,next_seq,active")
    } else if eq(name, "metadata") {
        Some("id,revision,history_days")
    } else if eq(name, "projections") {
        Some("run,process,observation,turn,turn_id")
    } else if eq(name, "attention") {
        Some("producer,generation,event,run,reason,reviewed")
    } else if eq(name, "outbox") {
        Some("producer,generation,event,run,state,created,changed")
    } else if eq(name, "tombstones") {
        Some("producer,generation,run,turn_id,event,created")
    } else {
        None
    }
}

/// The statements that rebuild table `name` with its current statement
/// `sql`, copying the legacy `columns` across.
pub open spec fn rebuild_text(name: Seq<char>, sql: Seq<char>, columns: Seq<char>) -> Seq<char> {
    "ALTER TABLE "@ + name + " RENAME TO legacy_"@ + name + ";"@ + sql + ";INSERT INTO "@ + name
        + "("@ + columns + ") SELECT "@ + columns + " FROM legacy_"@ + name + ";DROP TABLE legacy_"@
        + name
}

/// Builds `rebuild_text`; names and columns come only from the fixed layouts.
pub fn rebuild_statement(name: &str, sql: &str, columns: &str) -> (r: String)
    ensures
        r@ == rebuild_text(name@, sql@, columns@),
{
    let mut out = String::from_str("ALTER TABLE ");
    out.append(name);
    out.append(" RENAME TO legacy_");
    out.append(name);
    out.append(";");
    out.append(sql);
    out.append(";INSERT INTO ");
    out.append(name);
    out.append("(");
    out.append(columns);
    out.append(") SELECT ");
    out.append(columns);
    out.append(" FROM legacy_");
    out.append(name);
    out.append(";DROP TABLE legacy_");
    out.append(name);
    out
}

/// The terminal state a legacy tombstone is backfilled with: the terminal
/// state its fact reports, only when the fact is of the tombstone's run and
/// turn; none otherwise.
pub fn backfill_terminal(fact: &EventEnvelope, run: &str, turn: &str) -> (r: Option<u8>)
    ensures
        r == if fact@.run_id == run@ && payload_turn(fact@.event) == Some(turn@) {
            match fact_terminal(fact@) {
                Some(s) => Some(super::codes::turn_code(s)),
                None => None,
            }
        } else {
            None::<u8>
        },
{
    let same_turn = match fact.event.turn_id() {
        Some(t) => crate::text::str_eq(t.as_str(), turn),
        None => false,
    };
    if !crate::text::str_eq(fact.run_id.as_str(), run) || !same_turn {
        return None;
    }
    match super::validation::terminal(fact) {
        Some(s) => Some(super::codes::encode_turn(s)),
        None => None,
    }
}

/// The statements that bring the reduced-state tables of a database at
/// `version` (below 3) to `layout`, table by table: the index is created,
/// a maintenance table missing at version 1 is created with its single row,
/// each table with legacy columns is rebuilt around them, and any other
/// table is left as it is.
pub open spec fn upgrade_statements(version: i64, layout: Seq<(Seq<char>, Seq<char>)>) -> Seq<Seq<char>>
    decreases layout.len(),
{
    if layout.len() == 0 {
        Seq::empty()
    } else {
        let rest = upgrade_statements(version, layout.drop_last());
        let name = layout.last().0;
        let sql = layout.last().1;
        if name == "attention_active_scope"@ {
            rest.push(sql)
        } else if name == "maintenance"@ && version == 1 {
            rest.push(sql).push("INSERT INTO maintenance VALUES(1,0,0,0,0)"@)
        } else {
            match legacy_columns_of(name) {
                Some(columns) => rest.push(rebuild_text(name, sql, columns)),
                None => rest,
            }
        }
    }
}

/// Builds `upgrade_statements` for `layout`, given as names and statements.
pub fn upgrade(version: i64, layout: &Vec<(String, String)>) -> (r: Vec<String>)
    ensures
        r@.map_values(|s: String| s@) == upgrade_statements(
            version,
            layout@.map_values(|p: (String, String)| (p.0@, p.1@)),
        ),
{
    let ghost lv = layout@.map_values(|p: (String, String)| (p.0@, p.1@));
    let mut out: Vec<String> = Vec::new();
    let mut i: usize = 0;
    while i < layout.len()
        invariant
            i <= layout@.len(),
            lv == layout@.map_values(|p: (String, String)| (p.0@, p.1@)),
            out@.map_values(|s: String| s@) == upgrade_statements(version, lv.take(i as int)),
        decreases layout@.len() - i,
    {
        let name = layout[i].0.as_str();
        let sql = layout[i].1.as_str();
        proof {
            assert(lv.take(i + 1).drop_last() =~= lv.take(i as int));
            assert(lv.take(i + 1).last() == (name@, sql@));
        }
        let ghost before = out@;
        if crate::text::str_eq(name, "attention_active_scope") {
            out.push(String::from_str(sql));
            assert(out@.map_values(|s: String| s@) =~= before.map_values(|s: String| s@).push(sql@));
        } else if crate::text::str_eq(name, "maintenance") && version == 1 {
            out.push(String::from_str(sql));
            out.push(String::from_str("INSERT INTO maintenance VALUES(1,0,0,0,0)"));
            assert(out@.map_values(|s: String| s@) =~= before.map_values(|s: String| s@).push(sql@).push(
                "INSERT INTO maintenance VALUES(1,0,0,0,0)"@,
            ));
        } else {
            match legacy_columns(name) {
                Some(columns) => {
                    out.push(rebuild_statement(name, sql, columns));
                    assert(out@.map_values(|s: String| s@) =~= before.map_values(|s: String| s@).push(
                        rebuild_text(name@, sql@, columns@),
                    ));
                },
                None => {},
            }
        }
        i = i + 1;
    }
    assert(lv.take(i as int) =~= lv);
    out
}

} // verus!
