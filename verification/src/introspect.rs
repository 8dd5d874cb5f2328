use vstd::prelude::*;

verus! {

/// Column descriptor of one table column, as the catalog reports it.
#[derive(Debug, PartialEq)]
pub struct TableColumnInfo {
    pub name: String,
    pub is_nullable: bool,
    pub udt_name: String,
}

/// One table with its column descriptors.
#[derive(Debug, PartialEq)]
pub struct TableDatabaseInfo {
    pub name: String,
    pub json: Vec<TableColumnInfo>,
}

/// One constraint of a table.
#[derive(Debug, PartialEq)]
pub struct ConstraintInfo {
    pub column_name: Option<String>,
    pub name: String,
    pub type_: String,
    pub check_clause: Option<String>,
}

/// The constraints of one table.
#[derive(Debug, PartialEq)]
pub struct ConstraintsDatabaseInfo {
    pub table_name: String,
    pub json: Vec<ConstraintInfo>,
}

/// One view and its definition.
#[derive(Debug, PartialEq)]
pub struct ViewDatabaseInfo {
    pub table_name: String,
    pub definition: String,
}

/// One routine: its name, kind, definition and identity arguments.
#[derive(Debug, PartialEq)]
pub struct RoutineDatabaseInfo {
    pub name: String,
    pub type_: String,
    pub definition: Option<String>,
    pub parameters: Option<String>,
}

/// One trigger with the events it fires on.
#[derive(Debug, PartialEq)]
pub struct TriggerDatabaseInfo {
    pub name: String,
    pub object_table: String,
    pub json: Vec<String>,
    pub statement: String,
    pub orientation: String,
    pub timing: String,
}

/// The structured introspection payload: produced on demand by the five
/// fixed catalog queries, never cached.
#[derive(Debug, PartialEq)]
pub struct DatabaseInfo {
    pub tables: Vec<TableDatabaseInfo>,
    pub constraints: Vec<ConstraintsDatabaseInfo>,
    pub views: Vec<ViewDatabaseInfo>,
    pub routines: Vec<RoutineDatabaseInfo>,
    pub triggers: Vec<TriggerDatabaseInfo>,
}

/// The catalog query behind `DatabaseInfo::tables`. The five queries are
/// part of the external contract and are reproduced verbatim.
pub fn tables_query() -> (r: &'static str)
    ensures
        r@ == spec_tables_query(),
{
    "SELECT c.table_name as name,
       json_agg(
         json_build_object(
           'name', column_name,
           'isNullable', is_nullable::boolean,
           'udtName', udt_name
         ) ORDER BY ordinal_position
       ) as json
FROM information_schema.columns as c
JOIN information_schema.tables as t
  ON c.table_name = t.table_name AND c.table_schema = t.table_schema
WHERE c.table_schema = 'public' AND t.table_type != 'VIEW'
GROUP BY c.table_name, t.table_type;"
}

/// The characters of `tables_query`.
pub open spec fn spec_tables_query() -> Seq<char> {
    "SELECT c.table_name as name,
       json_agg(
         json_build_object(
           'name', column_name,
           'isNullable', is_nullable::boolean,
           'udtName', udt_name
         ) ORDER BY ordinal_position
       ) as json
FROM information_schema.columns as c
JOIN information_schema.tables as t
  ON c.table_name = t.table_name AND c.table_schema = t.table_schema
WHERE c.table_schema = 'public' AND t.table_type != 'VIEW'
GROUP BY c.table_name, t.table_type;"@
}

/// The catalog query behind `DatabaseInfo::constraints`.
pub fn constraints_query() -> (r: &'static str)
    ensures
        r@ == spec_constraints_query(),
{
    "SELECT constrains.table_name as table,
       json_agg(
         json_build_object(
           'columnName', constrains.column_name,
           'name', constrains.constraint_name,
           'type', constrains.constraint_type,
           'checkClause', constrains.check_clause
         )
       ) as json
FROM (
    SELECT tc.table_name, kcu.column_name, kcu.constraint_name, tc.constraint_type, NULL as check_clause
    FROM information_schema.KEY_COLUMN_USAGE as kcu
    JOIN information_schema.table_constraints as tc ON tc.constraint_name = kcu.constraint_name
    WHERE tc.table_schema = 'public'
    UNION
    SELECT tc.table_name, SUBSTRING(cc.check_clause from '(?:^|(?:\\.\\s))(\\w+)'), tc.constraint_name, tc.constraint_type, cc.check_clause
    FROM information_schema.table_constraints as tc
    JOIN information_schema.check_constraints as cc ON cc.constraint_name = tc.constraint_name
        AND constraint_type = 'CHECK'
    WHERE tc.table_schema = 'public'
) as constrains
GROUP BY constrains.table_name;"
}

/// The characters of `constraints_query`.
pub open spec fn spec_constraints_query() -> Seq<char> {
    "SELECT constrains.table_name as table,
       json_agg(
         json_build_object(
           'columnName', constrains.column_name,
           'name', constrains.constraint_name,
           'type', constrains.constraint_type,
           'checkClause', constrains.check_clause
         )
       ) as json
FROM (
    SELECT tc.table_name, kcu.column_name, kcu.constraint_name, tc.constraint_type, NULL as check_clause
    FROM information_schema.KEY_COLUMN_USAGE as kcu
    JOIN information_schema.table_constraints as tc ON tc.constraint_name = kcu.constraint_name
    WHERE tc.table_schema = 'public'
    UNION
    SELECT tc.table_name, SUBSTRING(cc.check_clause from '(?:^|(?:\\.\\s))(\\w+)'), tc.constraint_name, tc.constraint_type, cc.check_clause
    FROM information_schema.table_constraints as tc
    JOIN information_schema.check_constraints as cc ON cc.constraint_name = tc.constraint_name
        AND constraint_type = 'CHECK'
    WHERE tc.table_schema = 'public'
) as constrains
GROUP BY constrains.table_name;"@
}

/// The catalog query behind `DatabaseInfo::views`.
pub fn views_query() -> (r: &'static str)
    ensures
        r@ == spec_views_query(),
{
    "SELECT table_name as table, view_definition as definition
FROM information_schema.views
WHERE table_schema = 'public';"
}

/// The characters of `views_query`.
pub open spec fn spec_views_query() -> Seq<char> {
    "SELECT table_name as table, view_definition as definition
FROM information_schema.views
WHERE table_schema = 'public';"@
}

/// The catalog query behind `DatabaseInfo::routines`.
pub fn routines_query() -> (r: &'static str)
    ensures
        r@ == spec_routines_query(),
{
    "SELECT DISTINCT ON (oid)
       routine_name as name,
       routine_type as type,
       routine_definition as definition,
       pg_catalog.pg_get_function_identity_arguments(p.oid) AS parameters
FROM information_schema.routines i
JOIN pg_catalog.pg_proc p ON i.routine_name = p.proname
WHERE routine_schema = 'public';"
}

/// The characters of `routines_query`.
pub open spec fn spec_routines_query() -> Seq<char> {
    "SELECT DISTINCT ON (oid)
       routine_name as name,
       routine_type as type,
       routine_definition as definition,
       pg_catalog.pg_get_function_identity_arguments(p.oid) AS parameters
FROM information_schema.routines i
JOIN pg_catalog.pg_proc p ON i.routine_name = p.proname
WHERE routine_schema = 'public';"@
}

/// The catalog query behind `DatabaseInfo::triggers`.
pub fn triggers_query() -> (r: &'static str)
    ensures
        r@ == spec_triggers_query(),
{
    "SELECT trigger_name as name,
       event_object_table as objectTable,
       json_agg(event_manipulation) as json,
       action_statement as statement,
       action_orientation as orientation,
       action_timing as timing
FROM information_schema.triggers
WHERE trigger_schema = 'public'
GROUP BY trigger_name, action_statement, action_orientation, action_timing, event_object_table;"
}

/// The characters of `triggers_query`.
pub open spec fn spec_triggers_query() -> Seq<char> {
    "SELECT trigger_name as name,
       event_object_table as objectTable,
       json_agg(event_manipulation) as json,
       action_statement as statement,
       action_orientation as orientation,
       action_timing as timing
FROM information_schema.triggers
WHERE trigger_schema = 'public'
GROUP BY trigger_name, action_statement, action_orientation, action_timing, event_object_table;"@
}

} // verus!
