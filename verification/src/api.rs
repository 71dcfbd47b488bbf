use vstd::prelude::*;
use vstd::string::StrSliceExecFns;
use vstd::string::StringExecFns;

verus! {

// ---------------------------------------------------------------------------
// What the database endpoints answer.
// ---------------------------------------------------------------------------

/// What creating a database answers: the connection credentials, shown to
/// the user exactly once.
pub struct NewDbResponse {
    pub id: String,
    pub alias: String,
    pub user: String,
    pub password: String,
}

/// One table's part of a plan: its column headers and the records to be
/// touched.
pub struct PlanMeta {
    pub columns: Vec<String>,
    pub records: Vec<Vec<String>>,
}

/// What a plan or apply answers: per table, the records to create, update
/// and delete. The table names within each list are unique.
pub struct PlanResponse {
    pub iasql_plan_version: i32,
    pub to_create: Vec<(String, PlanMeta)>,
    pub to_update: Vec<(String, PlanMeta)>,
    pub to_delete: Vec<(String, PlanMeta)>,
}

impl PlanResponse {
    /// No difference detected between the database and the cloud: nothing
    /// to create, nothing to update, nothing to delete.
    pub fn is_empty_plan(&self) -> (r: bool)
        ensures
            r == (self.to_create@.len() == 0 && self.to_update@.len() == 0 && self.to_delete@.len()
                == 0),
    {
        self.to_create.len() == 0 && self.to_update.len() == 0 && self.to_delete.len() == 0
    }
}

/// The noun for a count of records: singular for one, plural for any
/// other count.
pub fn record_word(count: usize) -> (r: &'static str)
    ensures
        count == 1 ==> r@ == "record"@,
        count != 1 ==> r@ == "records"@,
{
    if count == 1 {
        "record"
    } else {
        "records"
    }
}

// ---------------------------------------------------------------------------
// AWS regions offered when creating a database.
// ---------------------------------------------------------------------------

/// The EC2 regions that require no opt-in, in alphabetical order.
pub open spec fn spec_aws_regions() -> Seq<Seq<char>> {
    seq![
        "ap-northeast-1"@,
        "ap-northeast-2"@,
        "ap-northeast-3"@,
        "ap-south-1"@,
        "ap-southeast-1"@,
        "ap-southeast-2"@,
        "ca-central-1"@,
        "eu-central-1"@,
        "eu-north-1"@,
        "eu-west-1"@,
        "eu-west-2"@,
        "eu-west-3"@,
        "sa-east-1"@,
        "us-east-1"@,
        "us-east-2"@,
        "us-west-1"@,
        "us-west-2"@,
    ]
}

/// The regions a new database can be placed in, exactly
/// [`spec_aws_regions`].
pub fn get_aws_regions() -> (r: Vec<String>)
    ensures
        r.deep_view() == spec_aws_regions(),
{
    let mut v: Vec<String> = Vec::new();
    v.push("ap-northeast-1".to_owned());
    v.push("ap-northeast-2".to_owned());
    v.push("ap-northeast-3".to_owned());
    v.push("ap-south-1".to_owned());
    v.push("ap-southeast-1".to_owned());
    v.push("ap-southeast-2".to_owned());
    v.push("ca-central-1".to_owned());
    v.push("eu-central-1".to_owned());
    v.push("eu-north-1".to_owned());
    v.push("eu-west-1".to_owned());
    v.push("eu-west-2".to_owned());
    v.push("eu-west-3".to_owned());
    v.push("sa-east-1".to_owned());
    v.push("us-east-1".to_owned());
    v.push("us-east-2".to_owned());
    v.push("us-west-1".to_owned());
    v.push("us-west-2".to_owned());
    proof {
        assert(v.deep_view() =~= spec_aws_regions());
    }
    v
}

// ---------------------------------------------------------------------------
// Export file naming.
// ---------------------------------------------------------------------------

/// Whether a text ends in the given suffix.
pub open spec fn spec_ends_with(s: Seq<char>, suffix: Seq<char>) -> bool {
    s.len() >= suffix.len() && s.subrange(s.len() - suffix.len(), s.len() as int) == suffix
}

/// The name a database dump is exported under: the given name when it
/// already carries the SQL extension, otherwise the name with the
/// extension appended.
pub fn ensure_sql_extension(dump_file: String) -> (r: String)
    ensures
        spec_ends_with(dump_file@, ".sql"@) ==> r@ == dump_file@,
        !spec_ends_with(dump_file@, ".sql"@) ==> r@ == dump_file@ + ".sql"@,
        spec_ends_with(r@, ".sql"@),
{
    proof {
        reveal_strlit(".sql");
        assert(".sql"@.len() == 4);
    }
    let n = dump_file.as_str().unicode_len();
    if n >= 4 {
        let tail = dump_file.as_str().substring_char(n - 4, n).to_owned();
        let sql: String = ".sql".to_owned();
        if tail == sql {
            return dump_file;
        }
    }
    let ghost given = dump_file@;
    let mut r = dump_file;
    r.append(".sql");
    proof {
        assert(r@.subrange(r@.len() - 4, r@.len() as int) =~= ".sql"@) by {
            assert(r@ == given + ".sql"@);
        }
    }
    r
}

} // verus!
