//! Commands that a client asks the server to execute.

use crate::codec::{
    Codec, CodecError, defaulted, field, get, get_defaulted, Member, put, Record, required,
};
use crate::json::{Json, JsonValue};
use crate::progress::{WorkDoneProgressParams, WorkDoneProgressParamsModel};
use crate::server_capabilities::{ExecuteCommandOptions, ExecuteCommandOptionsModel};
use vstd::prelude::*;

verus! {

#[derive(Debug, PartialEq, Clone, Default)]
pub struct ExecuteCommandParams {
    /// The identifier of the actual command handler.
    pub command: String,
    /// Arguments that the command should be invoked with.
    pub arguments: Vec<Json>,
    /// Its members are written among those of this value.
    pub work_done_progress_params: WorkDoneProgressParams,
}

/// What a [`ExecuteCommandParams`] stands for.
pub struct ExecuteCommandParamsModel {
    pub command: Seq<char>,
    pub arguments: Seq<JsonValue>,
    pub work_done_progress_params: WorkDoneProgressParamsModel,
}

impl DeepView for ExecuteCommandParams {
    type V = ExecuteCommandParamsModel;

    open spec fn deep_view(&self) -> ExecuteCommandParamsModel {
        ExecuteCommandParamsModel {
            command: self.command.deep_view(),
            arguments: self.arguments.deep_view(),
            work_done_progress_params: self.work_done_progress_params.deep_view(),
        }
    }
}

impl Record for ExecuteCommandParams {
    open spec fn members(before: Seq<Member>, value: ExecuteCommandParamsModel) -> Seq<Member> {
        WorkDoneProgressParams::members(
            before + field::<String>("command"@, value.command)
                + field::<Vec<Json>>("arguments"@, value.arguments),
            value.work_done_progress_params,
        )
    }

    open spec fn read(members: Seq<Member>) -> Result<ExecuteCommandParamsModel, CodecError> {
        let command = required::<String>(members, "command"@);
        let arguments = defaulted::<Json>(members, "arguments"@);
        let work_done_progress_params = WorkDoneProgressParams::read(members);
        if command is Err {
            Err(command->Err_0)
        } else if arguments is Err {
            Err(arguments->Err_0)
        } else if work_done_progress_params is Err {
            Err(work_done_progress_params->Err_0)
        } else {
            Ok(
                ExecuteCommandParamsModel {
                    command: command->Ok_0,
                    arguments: arguments->Ok_0,
                    work_done_progress_params: work_done_progress_params->Ok_0,
                },
            )
        }
    }

    fn write(&self, members: &mut Vec<(String, Json)>) {
        put(members, "command", &self.command);
        put(members, "arguments", &self.arguments);
        self.work_done_progress_params.write(members);
    }

    fn scan(members: &Vec<(String, Json)>) -> (result: Result<ExecuteCommandParams, CodecError>) {
        let command = get::<String>(members, "command");
        let arguments = get_defaulted::<Json>(members, "arguments");
        let work_done_progress_params = WorkDoneProgressParams::scan(members);
        if let Err(error) = command {
            Err(error)
        } else if let Err(error) = arguments {
            Err(error)
        } else if let Err(error) = work_done_progress_params {
            Err(error)
        } else {
            Ok(
                ExecuteCommandParams {
                    command: command.unwrap(),
                    arguments: arguments.unwrap(),
                    work_done_progress_params: work_done_progress_params.unwrap(),
                },
            )
        }
    }
}

/// Execute command registration options.
#[derive(Debug, PartialEq, Eq, Clone)]
pub struct ExecuteCommandRegistrationOptions {
    /// The commands to be executed on the server
    pub commands: Vec<String>,
    /// Its members are written among those of this value.
    pub execute_command_options: ExecuteCommandOptions,
}

/// What a [`ExecuteCommandRegistrationOptions`] stands for.
pub struct ExecuteCommandRegistrationOptionsModel {
    pub commands: Seq<Seq<char>>,
    pub execute_command_options: ExecuteCommandOptionsModel,
}

impl DeepView for ExecuteCommandRegistrationOptions {
    type V = ExecuteCommandRegistrationOptionsModel;

    open spec fn deep_view(&self) -> ExecuteCommandRegistrationOptionsModel {
        ExecuteCommandRegistrationOptionsModel {
            commands: self.commands.deep_view(),
            execute_command_options: self.execute_command_options.deep_view(),
        }
    }
}

impl Record for ExecuteCommandRegistrationOptions {
    open spec fn members(before: Seq<Member>, value: ExecuteCommandRegistrationOptionsModel) -> Seq<Member> {
        ExecuteCommandOptions::members(
            before + field::<Vec<String>>("commands"@, value.commands),
            value.execute_command_options,
        )
    }

    open spec fn read(members: Seq<Member>) -> Result<ExecuteCommandRegistrationOptionsModel, CodecError> {
        let commands = required::<Vec<String>>(members, "commands"@);
        let execute_command_options = ExecuteCommandOptions::read(members);
        if commands is Err {
            Err(commands->Err_0)
        } else if execute_command_options is Err {
            Err(execute_command_options->Err_0)
        } else {
            Ok(
                ExecuteCommandRegistrationOptionsModel {
                    commands: commands->Ok_0,
                    execute_command_options: execute_command_options->Ok_0,
                },
            )
        }
    }

    fn write(&self, members: &mut Vec<(String, Json)>) {
        put(members, "commands", &self.commands);
        self.execute_command_options.write(members);
    }

    fn scan(members: &Vec<(String, Json)>) -> (result: Result<ExecuteCommandRegistrationOptions, CodecError>) {
        let commands = get::<Vec<String>>(members, "commands");
        let execute_command_options = ExecuteCommandOptions::scan(members);
        if let Err(error) = commands {
            Err(error)
        } else if let Err(error) = execute_command_options {
            Err(error)
        } else {
            Ok(
                ExecuteCommandRegistrationOptions {
                    commands: commands.unwrap(),
                    execute_command_options: execute_command_options.unwrap(),
                },
            )
        }
    }
}

} // verus!
