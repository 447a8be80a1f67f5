//! The schema seeder: three built-in seed resources (table, column and
//! datatype definitions), each with a fixed destination under the schema
//! directory and a fixed payload, written only where the destination does
//! not exist yet.

use vstd::prelude::*;

verus! {

/// The fixed path of the configuration file in the project root.
pub open spec fn config_path_text() -> Seq<char> {
    "nanobot.toml"@
}

/// The fixed path of the ignore file in the project root.
pub open spec fn ignore_path_text() -> Seq<char> {
    ".gitignore"@
}

/// The fixed schema directory, relative to the project root.
pub open spec fn schema_dir_text() -> Seq<char> {
    "schema"@
}

/// The verbatim default configuration payload.
pub open spec fn config_payload_text() -> Seq<char> {
    "[nanobot]\nconnection = \".nanobot.db\"\n"@
}

/// The three seed resources.
#[derive(Clone, Copy, Debug, PartialEq, Eq, Structural)]
pub enum SeedKind {
    Table,
    Column,
    Datatype,
}

/// Destination path of a seed resource.
pub open spec fn seed_path_text(k: SeedKind) -> Seq<char> {
    match k {
        SeedKind::Table => "schema/table.tsv"@,
        SeedKind::Column => "schema/column.tsv"@,
        SeedKind::Datatype => "schema/datatype.tsv"@,
    }
}

/// Built-in payload of a seed resource, written verbatim.
pub open spec fn seed_payload_text(k: SeedKind) -> Seq<char> {
    match k {
        SeedKind::Table => (
        "table\tpath\tdescription\ttype\ntable\tschema/table.tsv\tAll of the tables in this project.\ttable\ncolumn\tschema/column.tsv\tColumns for all of the tables.\tcolumn\ndatatype\tschema/datatype.tsv\tDatatypes for all of the columns\tdatatype\n"@),
        SeedKind::Column => (
        "table\tcolumn\tnulltype\tdatatype\tstructure\tdescription\ntable\ttable\t\ttable_name\tunique\tname of this table\ntable\tpath\t\tpath\t\tpath to the TSV file for this table\ntable\tdescription\tempty\ttext\t\ta description of this table\ntable\ttype\tempty\ttable_type\t\ttype of this table\ncolumn\ttable\t\ttable_name\tfrom(table.table)\tthe table that this column belongs to\ncolumn\tcolumn\t\tcolumn_name\t\tthe name of this column\ncolumn\tnulltype\tempty\tdatatype_name\tfrom(datatype.datatype)\tthe datatype for NULL values in this column\ncolumn\tdatatype\t\tdatatype_name\tfrom(datatype.datatype)\tthe datatype for this column\ncolumn\tstructure\tempty\ttrimmed_line\t\tschema information for this column\ncolumn\tdescription\tempty\ttext\t\ta description of this column\ndatatype\tdatatype\t\tdatatype_name\tunique\tthe name of this datatype\ndatatype\tparent\tempty\tdatatype_name\ttree(datatype)\tthe parent datatype\ndatatype\tcondition\tempty\ttrimmed_line\t\tthe method for testing the datatype\ndatatype\tdescription\tempty\ttext\t\ta description of this datatype\n"@),
        SeedKind::Datatype => (
        "datatype\tparent\tcondition\tdescription\ntext\t\t\tany text\nempty\ttext\tequals('')\tthe empty string\nline\ttext\texclude(/\\n/)\ta line of text\ntrimmed_line\tline\tmatch(/\\S([^\\n]*\\S)*/)\ta line with no leading or trailing whitespace\nword\ttrimmed_line\texclude(/\\W/)\ta single word\ntable_name\tword\t\ta table name\ncolumn_name\ttrimmed_line\t\ta column name\ndatatype_name\tword\t\ta datatype name\ntable_type\tword\tin('table', 'column', 'datatype')\ta table type\npath\tline\t\tthe path of a file\n"@),
    }
}

/// The seed resource after `k`, in the fixed seeding order.
pub open spec fn seed_after(k: SeedKind) -> Option<SeedKind> {
    match k {
        SeedKind::Table => Some(SeedKind::Column),
        SeedKind::Column => Some(SeedKind::Datatype),
        SeedKind::Datatype => None,
    }
}

/// Which of the three seed files already exist.
#[derive(Clone, Copy, Debug, PartialEq, Eq, Structural)]
pub struct SeedPresence {
    pub table: bool,
    pub column: bool,
    pub datatype: bool,
}

/// Which of the three seed files a run newly wrote.
#[derive(Clone, Copy, Debug, PartialEq, Eq, Structural)]
pub struct SeededSet {
    pub table: bool,
    pub column: bool,
    pub datatype: bool,
}

/// The seeder's decision: a seed file is written exactly when it is not
/// already present; a present file is never touched.
pub fn seed_missing_plan(present: &SeedPresence) -> (s: SeededSet)
    ensures
        s.table == !present.table,
        s.column == !present.column,
        s.datatype == !present.datatype,
{
    SeededSet { table: !present.table, column: !present.column, datatype: !present.datatype }
}

/// Exec copy of `config_path_text`.
pub fn config_path() -> (s: String)
    ensures
        s@ == config_path_text(),
{
    String::from_str("nanobot.toml")
}

/// Exec copy of `ignore_path_text`.
pub fn ignore_path() -> (s: String)
    ensures
        s@ == ignore_path_text(),
{
    String::from_str(".gitignore")
}

/// Exec copy of `schema_dir_text`.
pub fn schema_dir() -> (s: String)
    ensures
        s@ == schema_dir_text(),
{
    String::from_str("schema")
}

/// Exec copy of `config_payload_text`.
pub fn config_payload() -> (s: String)
    ensures
        s@ == config_payload_text(),
{
    String::from_str("[nanobot]\nconnection = \".nanobot.db\"\n")
}

/// Exec copy of `seed_path_text`.
pub fn seed_path(k: SeedKind) -> (s: String)
    ensures
        s@ == seed_path_text(k),
{
    match k {
        SeedKind::Table => String::from_str("schema/table.tsv"),
        SeedKind::Column => String::from_str("schema/column.tsv"),
        SeedKind::Datatype => String::from_str("schema/datatype.tsv"),
    }
}

/// Exec copy of `seed_payload_text`.
pub fn seed_payload(k: SeedKind) -> (s: String)
    ensures
        s@ == seed_payload_text(k),
{
    match k {
        SeedKind::Table => String::from_str(
            "table\tpath\tdescription\ttype\ntable\tschema/table.tsv\tAll of the tables in this project.\ttable\ncolumn\tschema/column.tsv\tColumns for all of the tables.\tcolumn\ndatatype\tschema/datatype.tsv\tDatatypes for all of the columns\tdatatype\n",
        ),
        SeedKind::Column => String::from_str(
            "table\tcolumn\tnulltype\tdatatype\tstructure\tdescription\ntable\ttable\t\ttable_name\tunique\tname of this table\ntable\tpath\t\tpath\t\tpath to the TSV file for this table\ntable\tdescription\tempty\ttext\t\ta description of this table\ntable\ttype\tempty\ttable_type\t\ttype of this table\ncolumn\ttable\t\ttable_name\tfrom(table.table)\tthe table that this column belongs to\ncolumn\tcolumn\t\tcolumn_name\t\tthe name of this column\ncolumn\tnulltype\tempty\tdatatype_name\tfrom(datatype.datatype)\tthe datatype for NULL values in this column\ncolumn\tdatatype\t\tdatatype_name\tfrom(datatype.datatype)\tthe datatype for this column\ncolumn\tstructure\tempty\ttrimmed_line\t\tschema information for this column\ncolumn\tdescription\tempty\ttext\t\ta description of this column\ndatatype\tdatatype\t\tdatatype_name\tunique\tthe name of this datatype\ndatatype\tparent\tempty\tdatatype_name\ttree(datatype)\tthe parent datatype\ndatatype\tcondition\tempty\ttrimmed_line\t\tthe method for testing the datatype\ndatatype\tdescription\tempty\ttext\t\ta description of this datatype\n",
        ),
        SeedKind::Datatype => String::from_str(
            "datatype\tparent\tcondition\tdescription\ntext\t\t\tany text\nempty\ttext\tequals('')\tthe empty string\nline\ttext\texclude(/\\n/)\ta line of text\ntrimmed_line\tline\tmatch(/\\S([^\\n]*\\S)*/)\ta line with no leading or trailing whitespace\nword\ttrimmed_line\texclude(/\\W/)\ta single word\ntable_name\tword\t\ta table name\ncolumn_name\ttrimmed_line\t\ta column name\ndatatype_name\tword\t\ta datatype name\ntable_type\tword\tin('table', 'column', 'datatype')\ta table type\npath\tline\t\tthe path of a file\n",
        ),
    }
}

} // verus!
