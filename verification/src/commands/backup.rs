//! `backup`: data exports of the broker.
use vstd::prelude::*;
use crate::columns::ColumnSet;
use crate::plan::{
    BodyView, CommandPlan, HttpMethod, MethodView, PlanView, Render, RenderView, RequestBody, call,
    call_view, empty_object, empty_object_value,
};
use crate::text::{owned, str_eq, concat2, concat3, concat5};
use crate::commands::{list_view, delete_view, confirm_view, list_all, handle_delete, send_and_confirm};

verus! {

/// A `backup` command.
pub enum BackupCommand {
    List,
    Create,
    /// Download backup `name` to `output` (`.` for a file named as the backup).
    Download { name: String, output: String },
    Upload { file: String },
    Import { file: String },
    Delete { name: String },
}

/// Where a download goes: `output`, or a file named `name` when `output` is `.`.
pub open spec fn backup_dest(name: Seq<char>, output: Seq<char>) -> Seq<char> {
    if output == "."@ {
        name
    } else {
        output
    }
}

/// What a `backup` command does.
pub open spec fn backup_plan(cmd: BackupCommand) -> PlanView {
    match cmd {
        BackupCommand::List => list_view("/data/export"@, ColumnSet::BackupList),
        BackupCommand::Create => call_view(
            MethodView::Post,
            "/data/export"@,
            BodyView::Json(empty_object()),
            RenderView::SuccessIfNull("Backup created"@),
        ),
        BackupCommand::Download { name, output } => PlanView::Download {
            path: "/data/export/"@ + name@,
            dest: backup_dest(name@, output@),
            success: "Backup '"@ + name@ + "' downloaded to '"@ + backup_dest(name@, output@) + "'"@,
        },
        BackupCommand::Upload { file } => PlanView::Upload {
            path: "/data/files"@,
            file: file@,
            success: "Backup uploaded"@,
        },
        BackupCommand::Import { file } => confirm_view(
            MethodView::Post,
            "/data/import"@,
            BodyView::InputFile(file@),
            "Backup imported"@,
        ),
        BackupCommand::Delete { name } => delete_view("/data/export/"@ + name@, "Backup '"@ + name@ + "' deleted"@),
    }
}

impl BackupCommand {
    /// The plan of this command.
    pub fn plan(&self) -> (r: CommandPlan)
        ensures
            r@ == backup_plan(*self),
    {
        match self {
            BackupCommand::List => list_all(owned("/data/export"), ColumnSet::BackupList),
            BackupCommand::Create => call(
                HttpMethod::Post,
                owned("/data/export"),
                RequestBody::Json(empty_object_value()),
                Render::SuccessIfNull(owned("Backup created")),
            ),
            BackupCommand::Download { name, output } => {
                let dest = if str_eq(output.as_str(), ".") {
                    name.clone()
                } else {
                    output.clone()
                };
                let success = concat5("Backup '", name.as_str(), "' downloaded to '", dest.as_str(), "'");
                CommandPlan::Download { path: concat2("/data/export/", name.as_str()), dest, success }
            },
            BackupCommand::Upload { file } => CommandPlan::Upload {
                path: owned("/data/files"),
                file: file.clone(),
                success: owned("Backup uploaded"),
            },
            BackupCommand::Import { file } => send_and_confirm(
                HttpMethod::Post,
                owned("/data/import"),
                RequestBody::InputFile(file.clone()),
                owned("Backup imported"),
            ),
            BackupCommand::Delete { name } => handle_delete(
                concat2("/data/export/", name.as_str()),
                concat3("Backup '", name.as_str(), "' deleted"),
            ),
        }
    }
}

} // verus!
