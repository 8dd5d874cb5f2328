use vstd::prelude::*;

verus! {

/// Mathematical model of an execution error: the kind and the characters
/// of its payload.
pub enum SqlErrorModel {
    Init(Seq<char>),
    Execute(Seq<char>),
    Other(Seq<char>),
    ColumnDecode(Seq<char>),
}

/// The error taxonomy of the execution core. `Init` carries the driver
/// message of a failure while running the environment script, `Execute` of
/// a failure while running the user query, `ColumnDecodeError` the name of
/// a column whose value the decoder could not represent, and `Other` the
/// message of any other driver or connection failure.
#[derive(Debug, PartialEq)]
pub enum SqlExecutionError {
    Init(String),
    Execute(String),
    Other(String),
    ColumnDecodeError(String),
}

impl View for SqlExecutionError {
    type V = SqlErrorModel;

    open spec fn view(&self) -> SqlErrorModel {
        match self {
            SqlExecutionError::Init(s) => SqlErrorModel::Init(s@),
            SqlExecutionError::Execute(s) => SqlErrorModel::Execute(s@),
            SqlExecutionError::Other(s) => SqlErrorModel::Other(s@),
            SqlExecutionError::ColumnDecodeError(s) => SqlErrorModel::ColumnDecode(s@),
        }
    }
}

impl Clone for SqlExecutionError {
    fn clone(&self) -> (res: Self)
        ensures
            res@ == self@,
    {
        match self {
            SqlExecutionError::Init(s) => SqlExecutionError::Init(s.clone()),
            SqlExecutionError::Execute(s) => SqlExecutionError::Execute(s.clone()),
            SqlExecutionError::Other(s) => SqlExecutionError::Other(s.clone()),
            SqlExecutionError::ColumnDecodeError(s) => SqlExecutionError::ColumnDecodeError(
                s.clone(),
            ),
        }
    }
}

impl SqlExecutionError {
    /// The characters of `message`.
    pub open spec fn spec_message(&self) -> Seq<char> {
        match self@ {
            SqlErrorModel::Init(s) => "error while initializing database: "@ + s,
            SqlErrorModel::Execute(s) => "error while executing supplied query: "@ + s,
            SqlErrorModel::Other(s) => "an sql error occurred: "@ + s,
            SqlErrorModel::ColumnDecode(s) => "failed to determine column type of `"@ + s + "`"@,
        }
    }

    /// The human-readable description, as the service logs it.
    pub fn message(&self) -> (r: String)
        ensures
            r@ == self.spec_message(),
    {
        match self {
            SqlExecutionError::Init(s) => {
                let mut r = String::from_str("error while initializing database: ");
                r.append(s.as_str());
                r
            },
            SqlExecutionError::Execute(s) => {
                let mut r = String::from_str("error while executing supplied query: ");
                r.append(s.as_str());
                r
            },
            SqlExecutionError::Other(s) => {
                let mut r = String::from_str("an sql error occurred: ");
                r.append(s.as_str());
                r
            },
            SqlExecutionError::ColumnDecodeError(s) => {
                let mut r = String::from_str("failed to determine column type of `");
                r.append(s.as_str());
                r.append("`");
                r
            },
        }
    }
}

} // verus!
