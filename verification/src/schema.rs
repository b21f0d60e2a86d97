//! Static metadata of the synchronized tables.
//!
//! One descriptor per table names the table, its key and change-tracking
//! columns, the columns an upsert overwrites, and the strategy the sync unit
//! applies.  The dependency order lists the tables so that every foreign-key
//! parent is processed before its children.

use vstd::prelude::*;

verus! {

/// How one table is synchronized.
#[derive(Clone, Copy, Debug, PartialEq, Eq, Structural)]
pub enum SyncStrategy {
    /// Select rows changed since the watermark and upsert each one,
    /// last writer wins.
    IncrementalUpsert,
    /// Select rows created since the watermark and insert each unless its
    /// key already exists.
    AppendOnly,
    /// Select every row and insert each unless its key already exists.
    FullScanDedup,
}

/// The ten synchronized tables.
#[derive(Clone, Copy, Debug, PartialEq, Eq, Structural)]
pub enum TableId {
    Spaces,
    Projects,
    Tags,
    Links,
    Tasks,
    TaskActivityLogs,
    TaskTags,
    TaskLinks,
    ProjectTags,
    ProjectLinks,
}

/// Strategy applied to each table.
pub open spec fn strategy_spec(t: TableId) -> SyncStrategy {
    match t {
        TableId::Spaces => SyncStrategy::IncrementalUpsert,
        TableId::Projects => SyncStrategy::IncrementalUpsert,
        TableId::Tags => SyncStrategy::AppendOnly,
        TableId::Links => SyncStrategy::IncrementalUpsert,
        TableId::Tasks => SyncStrategy::IncrementalUpsert,
        TableId::TaskActivityLogs => SyncStrategy::AppendOnly,
        TableId::TaskTags => SyncStrategy::FullScanDedup,
        TableId::TaskLinks => SyncStrategy::FullScanDedup,
        TableId::ProjectTags => SyncStrategy::FullScanDedup,
        TableId::ProjectLinks => SyncStrategy::FullScanDedup,
    }
}

/// Strategy applied to each table.
pub fn strategy_of(t: TableId) -> (r: SyncStrategy)
    ensures
        r == strategy_spec(t),
{
    match t {
        TableId::Spaces => SyncStrategy::IncrementalUpsert,
        TableId::Projects => SyncStrategy::IncrementalUpsert,
        TableId::Tags => SyncStrategy::AppendOnly,
        TableId::Links => SyncStrategy::IncrementalUpsert,
        TableId::Tasks => SyncStrategy::IncrementalUpsert,
        TableId::TaskActivityLogs => SyncStrategy::AppendOnly,
        TableId::TaskTags => SyncStrategy::FullScanDedup,
        TableId::TaskLinks => SyncStrategy::FullScanDedup,
        TableId::ProjectTags => SyncStrategy::FullScanDedup,
        TableId::ProjectLinks => SyncStrategy::FullScanDedup,
    }
}

/// Table name of each synchronized table.
pub open spec fn table_name_spec(t: TableId) -> Seq<char> {
    match t {
        TableId::Spaces => "spaces"@,
        TableId::Projects => "projects"@,
        TableId::Tags => "tags"@,
        TableId::Links => "links"@,
        TableId::Tasks => "tasks"@,
        TableId::TaskActivityLogs => "task_activity_logs"@,
        TableId::TaskTags => "task_tags"@,
        TableId::TaskLinks => "task_links"@,
        TableId::ProjectTags => "project_tags"@,
        TableId::ProjectLinks => "project_links"@,
    }
}

/// First (or only) primary-key column of each table.
pub open spec fn key_column_spec(t: TableId) -> Seq<char> {
    match t {
        TableId::TaskTags => "task_id"@,
        TableId::TaskLinks => "task_id"@,
        TableId::ProjectTags => "project_id"@,
        TableId::ProjectLinks => "project_id"@,
        _ => "id"@,
    }
}

/// Second key column of each composite-keyed table.
pub open spec fn second_key_column_spec(t: TableId) -> Option<Seq<char>> {
    match t {
        TableId::TaskTags => Some("tag_id"@),
        TableId::TaskLinks => Some("link_id"@),
        TableId::ProjectTags => Some("tag_id"@),
        TableId::ProjectLinks => Some("link_id"@),
        _ => None,
    }
}

/// Change-tracking column of each table; junction tables have none.
pub open spec fn change_column_spec(t: TableId) -> Option<Seq<char>> {
    match strategy_spec(t) {
        SyncStrategy::IncrementalUpsert => Some("updated_at"@),
        SyncStrategy::AppendOnly => Some("created_at"@),
        SyncStrategy::FullScanDedup => None,
    }
}

/// The non-key columns an upsert of this table overwrites on conflict.
pub open spec fn update_columns_spec(t: TableId) -> Seq<Seq<char>> {
    match t {
        TableId::Spaces => seq!["updated_at"@, "name"@, "order"@],
        TableId::Projects => seq![
            "updated_at"@,
            "parent_id"@,
            "space_id"@,
            "path"@,
            "title"@,
            "note"@,
            "priority"@,
            "todo_task_count"@,
            "done_task_count"@,
            "last_task_updated_at"@,
            "archived_at"@,
            "deleted_at"@,
            "rank"@,
        ],
        TableId::Links => seq!["updated_at"@, "title"@, "url"@, "rank"@, "kind"@],
        TableId::Tasks => seq![
            "updated_at"@,
            "title"@,
            "note"@,
            "status"@,
            "done_reason"@,
            "priority"@,
            "rank"@,
            "completed_at"@,
            "deadline_at"@,
            "archived_at"@,
            "deleted_at"@,
            "custom_fields"@,
            "project_id"@,
            "space_id"@,
        ],
        _ => Seq::empty(),
    }
}

/// The view of an optional static column name.
pub open spec fn opt_col_view(c: Option<&str>) -> Option<Seq<char>> {
    match c {
        Some(s) => Some(s@),
        None => None,
    }
}

/// Static description of one synchronized table.
pub struct TableDescriptor {
    pub table: TableId,
    /// Table name in both stores.
    pub name: &'static str,
    /// First (or only) primary-key column.
    pub key_column: &'static str,
    /// Second key column, for composite junction keys.
    pub second_key_column: Option<&'static str>,
    /// Change-tracking column; junction tables have none.
    pub change_column: Option<&'static str>,
    pub strategy: SyncStrategy,
}

/// The fixed order in which a pass processes the tables: every foreign-key
/// parent before its children, junction tables last.
pub open spec fn table_order_spec() -> Seq<TableId> {
    seq![
        TableId::Spaces,
        TableId::Projects,
        TableId::Tags,
        TableId::Links,
        TableId::Tasks,
        TableId::TaskActivityLogs,
        TableId::TaskTags,
        TableId::TaskLinks,
        TableId::ProjectTags,
        TableId::ProjectLinks,
    ]
}

/// The fixed order in which a pass processes the tables.
pub fn table_order() -> (r: Vec<TableId>)
    ensures
        r@ == table_order_spec(),
{
    let mut order: Vec<TableId> = Vec::new();
    order.push(TableId::Spaces);
    order.push(TableId::Projects);
    order.push(TableId::Tags);
    order.push(TableId::Links);
    order.push(TableId::Tasks);
    order.push(TableId::TaskActivityLogs);
    order.push(TableId::TaskTags);
    order.push(TableId::TaskLinks);
    order.push(TableId::ProjectTags);
    order.push(TableId::ProjectLinks);
    proof {
        assert(order@ =~= table_order_spec());
    }
    order
}

/// Descriptor of one table.  The name and column texts are pinned exactly.
pub fn descriptor_for(t: TableId) -> (r: TableDescriptor)
    ensures
        r.table == t,
        r.strategy == strategy_spec(t),
        r.name@ == table_name_spec(t),
        r.key_column@ == key_column_spec(t),
        opt_col_view(r.second_key_column) == second_key_column_spec(t),
        opt_col_view(r.change_column) == change_column_spec(t),
{
    match t {
        TableId::Spaces => TableDescriptor {
            table: t,
            name: "spaces",
            key_column: "id",
            second_key_column: None,
            change_column: Some("updated_at"),
            strategy: SyncStrategy::IncrementalUpsert,
        },
        TableId::Projects => TableDescriptor {
            table: t,
            name: "projects",
            key_column: "id",
            second_key_column: None,
            change_column: Some("updated_at"),
            strategy: SyncStrategy::IncrementalUpsert,
        },
        TableId::Tags => TableDescriptor {
            table: t,
            name: "tags",
            key_column: "id",
            second_key_column: None,
            change_column: Some("created_at"),
            strategy: SyncStrategy::AppendOnly,
        },
        TableId::Links => TableDescriptor {
            table: t,
            name: "links",
            key_column: "id",
            second_key_column: None,
            change_column: Some("updated_at"),
            strategy: SyncStrategy::IncrementalUpsert,
        },
        TableId::Tasks => TableDescriptor {
            table: t,
            name: "tasks",
            key_column: "id",
            second_key_column: None,
            change_column: Some("updated_at"),
            strategy: SyncStrategy::IncrementalUpsert,
        },
        TableId::TaskActivityLogs => TableDescriptor {
            table: t,
            name: "task_activity_logs",
            key_column: "id",
            second_key_column: None,
            change_column: Some("created_at"),
            strategy: SyncStrategy::AppendOnly,
        },
        TableId::TaskTags => TableDescriptor {
            table: t,
            name: "task_tags",
            key_column: "task_id",
            second_key_column: Some("tag_id"),
            change_column: None,
            strategy: SyncStrategy::FullScanDedup,
        },
        TableId::TaskLinks => TableDescriptor {
            table: t,
            name: "task_links",
            key_column: "task_id",
            second_key_column: Some("link_id"),
            change_column: None,
            strategy: SyncStrategy::FullScanDedup,
        },
        TableId::ProjectTags => TableDescriptor {
            table: t,
            name: "project_tags",
            key_column: "project_id",
            second_key_column: Some("tag_id"),
            change_column: None,
            strategy: SyncStrategy::FullScanDedup,
        },
        TableId::ProjectLinks => TableDescriptor {
            table: t,
            name: "project_links",
            key_column: "project_id",
            second_key_column: Some("link_id"),
            change_column: None,
            strategy: SyncStrategy::FullScanDedup,
        },
    }
}

/// The non-key columns an upsert of this table overwrites on conflict.
/// Tables synchronized by insert-if-absent update nothing.
pub fn update_columns(t: TableId) -> (r: Vec<&'static str>)
    ensures
        r@.map_values(|c: &str| c@) == update_columns_spec(t),
        (r@.len() == 0) <==> strategy_spec(t) != SyncStrategy::IncrementalUpsert,
{
    let mut cols: Vec<&'static str> = Vec::new();
    match t {
        TableId::Spaces => {
            cols.push("updated_at");
            cols.push("name");
            cols.push("order");
        },
        TableId::Projects => {
            cols.push("updated_at");
            cols.push("parent_id");
            cols.push("space_id");
            cols.push("path");
            cols.push("title");
            cols.push("note");
            cols.push("priority");
            cols.push("todo_task_count");
            cols.push("done_task_count");
            cols.push("last_task_updated_at");
            cols.push("archived_at");
            cols.push("deleted_at");
            cols.push("rank");
        },
        TableId::Links => {
            cols.push("updated_at");
            cols.push("title");
            cols.push("url");
            cols.push("rank");
            cols.push("kind");
        },
        TableId::Tasks => {
            cols.push("updated_at");
            cols.push("title");
            cols.push("note");
            cols.push("status");
            cols.push("done_reason");
            cols.push("priority");
            cols.push("rank");
            cols.push("completed_at");
            cols.push("deadline_at");
            cols.push("archived_at");
            cols.push("deleted_at");
            cols.push("custom_fields");
            cols.push("project_id");
            cols.push("space_id");
        },
        _ => {},
    }
    proof {
        assert(cols@.map_values(|c: &str| c@) =~= update_columns_spec(t));
    }
    cols
}

} // verus!
