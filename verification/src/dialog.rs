//! The dialog controller: an extension asks for structured input, the
//! front-end collects it, and the extension is resumed with what was
//! entered.
//!
//! One dialog turn passes through `Idle`, `Requested`, `AwaitingInput` and
//! `Resolved`. The state holds what the channel's dialog files hold: the
//! pending request until it is answered, the response afterwards.

use crate::error::LauncherError;
use crate::extension::{
    ContextAction, Invocation, InvocationContext, InvocationContextModel, InvocationModel,
    LaunchMode,
};
use crate::model::{clone_optional_text, clone_optional_texts};
use vstd::prelude::*;

verus! {

/// One input field of a dialog. The controller carries fields through and
/// reads none of them.
#[derive(Debug, Clone, PartialEq, Eq)]
pub struct DialogField {
    pub kind: String,
    pub label: String,
    pub default_value: String,
}

/// Model of [`DialogField`].
pub struct DialogFieldModel {
    pub kind: Seq<char>,
    pub label: Seq<char>,
    pub default_value: Seq<char>,
}

impl DeepView for DialogField {
    type V = DialogFieldModel;

    open spec fn deep_view(&self) -> DialogFieldModel {
        DialogFieldModel {
            kind: self.kind@,
            label: self.label@,
            default_value: self.default_value@,
        }
    }
}

impl View for DialogField {
    type V = DialogFieldModel;

    open spec fn view(&self) -> DialogFieldModel {
        self.deep_view()
    }
}

/// A request for input, made by an extension or on its behalf.
#[derive(Debug, Clone, PartialEq, Eq)]
pub struct DialogRequest {
    pub extension_id: String,
    pub extension_action: String,
    pub title: String,
    pub primary_button_text: Option<String>,
    pub fields: Vec<DialogField>,
    pub args: Option<Vec<String>>,
}

/// Model of [`DialogRequest`].
pub struct DialogRequestModel {
    pub extension_id: Seq<char>,
    pub extension_action: Seq<char>,
    pub title: Seq<char>,
    pub primary_button_text: Option<Seq<char>>,
    pub fields: Seq<DialogFieldModel>,
    pub args: Option<Seq<Seq<char>>>,
}

impl DeepView for DialogRequest {
    type V = DialogRequestModel;

    open spec fn deep_view(&self) -> DialogRequestModel {
        DialogRequestModel {
            extension_id: self.extension_id@,
            extension_action: self.extension_action@,
            title: self.title@,
            primary_button_text: self.primary_button_text.deep_view(),
            fields: self.fields.deep_view(),
            args: self.args.deep_view(),
        }
    }
}

impl View for DialogRequest {
    type V = DialogRequestModel;

    open spec fn view(&self) -> DialogRequestModel {
        self.deep_view()
    }
}

/// What the user entered into one field.
#[derive(Debug, Clone, PartialEq, Eq)]
pub struct DialogResult {
    pub field: String,
    pub value: String,
}

/// Model of [`DialogResult`].
pub struct DialogResultModel {
    pub field: Seq<char>,
    pub value: Seq<char>,
}

impl DeepView for DialogResult {
    type V = DialogResultModel;

    open spec fn deep_view(&self) -> DialogResultModel {
        DialogResultModel { field: self.field@, value: self.value@ }
    }
}

impl View for DialogResult {
    type V = DialogResultModel;

    open spec fn view(&self) -> DialogResultModel {
        self.deep_view()
    }
}

/// The answer to a dialog: what was entered, with the arguments of the
/// request, so that the extension can take up where it left off.
#[derive(Debug, Clone, PartialEq, Eq)]
pub struct DialogResponse {
    pub results: Vec<DialogResult>,
    pub args: Option<Vec<String>>,
}

/// Model of [`DialogResponse`].
pub struct DialogResponseModel {
    pub results: Seq<DialogResultModel>,
    pub args: Option<Seq<Seq<char>>>,
}

impl DeepView for DialogResponse {
    type V = DialogResponseModel;

    open spec fn deep_view(&self) -> DialogResponseModel {
        DialogResponseModel { results: self.results.deep_view(), args: self.args.deep_view() }
    }
}

impl View for DialogResponse {
    type V = DialogResponseModel;

    open spec fn view(&self) -> DialogResponseModel {
        self.deep_view()
    }
}

/// Where a dialog turn stands.
#[derive(Debug, Clone, PartialEq, Eq)]
pub enum DialogState {
    /// No dialog was asked for.
    Idle,
    /// A request is stored and the front-end has not fetched it yet.
    Requested { request: DialogRequest },
    /// The front-end fetched the request and collects the input.
    AwaitingInput { request: DialogRequest },
    /// The input was submitted; the request is gone and the response is
    /// stored for the extension.
    Resolved { response: DialogResponse },
}

/// Model of [`DialogState`].
pub enum DialogStateModel {
    Idle,
    Requested { request: DialogRequestModel },
    AwaitingInput { request: DialogRequestModel },
    Resolved { response: DialogResponseModel },
}

impl DeepView for DialogState {
    type V = DialogStateModel;

    open spec fn deep_view(&self) -> DialogStateModel {
        match self {
            DialogState::Idle => DialogStateModel::Idle,
            DialogState::Requested { request } => DialogStateModel::Requested {
                request: request@,
            },
            DialogState::AwaitingInput { request } => DialogStateModel::AwaitingInput {
                request: request@,
            },
            DialogState::Resolved { response } => DialogStateModel::Resolved {
                response: response@,
            },
        }
    }
}

impl View for DialogState {
    type V = DialogStateModel;

    open spec fn view(&self) -> DialogStateModel {
        self.deep_view()
    }
}

/// The request that waits for input in `state`.
pub open spec fn pending_request(state: DialogStateModel) -> Option<DialogRequestModel> {
    match state {
        DialogStateModel::Requested { request } => Some(request),
        DialogStateModel::AwaitingInput { request } => Some(request),
        _ => None,
    }
}

/// The response stored in `state`.
pub open spec fn stored_response(state: DialogStateModel) -> Option<DialogResponseModel> {
    match state {
        DialogStateModel::Resolved { response } => Some(response),
        _ => None,
    }
}

/// The state after `request` was stored: whatever stood before gives way.
pub open spec fn opened(request: DialogRequestModel) -> DialogStateModel {
    DialogStateModel::Requested { request }
}

/// The state after the front-end asked for the pending request: a pending
/// request is now being answered, and nothing changes where there is none.
pub open spec fn fetched(state: DialogStateModel) -> DialogStateModel {
    match pending_request(state) {
        Some(request) => DialogStateModel::AwaitingInput { request },
        None => state,
    }
}

/// The state after `response` was submitted.
pub open spec fn closed(response: DialogResponseModel) -> DialogStateModel {
    DialogStateModel::Resolved { response }
}

/// The invocation that resumes the extension `extension_id` after a dialog:
/// it runs `extension_action` in the background. The arguments travel in
/// the response, not in the context.
pub open spec fn resumption(
    extension_id: Seq<char>,
    extension_action: Seq<char>,
) -> InvocationModel {
    InvocationModel {
        extension_id,
        context: InvocationContextModel {
            action: ContextAction::RunAction,
            search_text: None,
            extension_action: Some(extension_action),
            custom_args: None,
        },
        mode: LaunchMode::Background,
    }
}

/// A copy of a list of fields.
pub fn clone_fields(fields: &Vec<DialogField>) -> (copy: Vec<DialogField>)
    ensures
        copy.deep_view() == fields.deep_view(),
{
    let mut copy: Vec<DialogField> = Vec::new();
    let n = fields.len();
    let mut i: usize = 0;
    while i < n
        invariant
            n == fields.len(),
            i <= n,
            copy.deep_view() =~= fields.deep_view().take(i as int),
        decreases n - i,
    {
        let ghost before = copy.deep_view();
        let field = DialogField {
            kind: fields[i].kind.clone(),
            label: fields[i].label.clone(),
            default_value: fields[i].default_value.clone(),
        };
        copy.push(field);
        assert(copy.deep_view() =~= before.push(field@));
        assert(fields.deep_view().take(i + 1) =~= fields.deep_view().take(i as int).push(
            fields[i as int]@,
        ));
        i += 1;
    }
    assert(fields.deep_view().take(n as int) =~= fields.deep_view());
    copy
}

/// A copy of a request.
pub fn clone_request(request: &DialogRequest) -> (copy: DialogRequest)
    ensures
        copy@ == request@,
{
    DialogRequest {
        extension_id: request.extension_id.clone(),
        extension_action: request.extension_action.clone(),
        title: request.title.clone(),
        primary_button_text: clone_optional_text(&request.primary_button_text),
        fields: clone_fields(&request.fields),
        args: clone_optional_texts(&request.args),
    }
}

/// Stores a request for input. It takes the place of whatever the state
/// held, and it may have no fields at all: that is a dialog that only asks
/// for confirmation. This never fails.
pub fn open_extension_dialog(
    state: &mut DialogState,
    extension_id: String,
    extension_action: String,
    title: String,
    primary_button_text: Option<String>,
    fields: Vec<DialogField>,
    args: Option<Vec<String>>,
) -> (done: Result<(), LauncherError>)
    ensures
        done is Ok,
        final(state)@ == opened(
            DialogRequestModel {
                extension_id: extension_id@,
                extension_action: extension_action@,
                title: title@,
                primary_button_text: primary_button_text.deep_view(),
                fields: fields.deep_view(),
                args: args.deep_view(),
            },
        ),
{
    *state = DialogState::Requested {
        request: DialogRequest {
            extension_id,
            extension_action,
            title,
            primary_button_text,
            fields,
            args,
        },
    };
    Ok(())
}

/// Hands the pending request to the front-end, which from now on collects
/// the input. Fails with `NoDialogPending`, and changes nothing, where no
/// request is pending.
pub fn get_extension_dialog_action(state: &mut DialogState) -> (request: Result<
    DialogRequest,
    LauncherError,
>)
    ensures
        final(state)@ == fetched(old(state)@),
        match request {
            Ok(r) => pending_request(old(state)@) == Some(r@),
            Err(e) => pending_request(old(state)@) is None && e == LauncherError::NoDialogPending,
        },
{
    let copy = match &*state {
        DialogState::Requested { request } => Some(clone_request(request)),
        DialogState::AwaitingInput { request } => Some(clone_request(request)),
        _ => None,
    };
    match copy {
        Some(request) => {
            *state = DialogState::AwaitingInput { request: clone_request(&request) };
            Ok(request)
        },
        None => Err(LauncherError::NoDialogPending),
    }
}

/// Submits what the user entered: stores the response, `results` together
/// with `args`, and yields the invocation that resumes the extension in the
/// background. The caller does not wait for the extension.
pub fn close_extension_dialog(
    state: &mut DialogState,
    extension_id: String,
    extension_action: String,
    args: Option<Vec<String>>,
    results: Vec<DialogResult>,
) -> (invocation: Invocation)
    ensures
        final(state)@ == closed(
            DialogResponseModel { results: results.deep_view(), args: args.deep_view() },
        ),
        invocation@ == resumption(extension_id@, extension_action@),
{
    *state = DialogState::Resolved { response: DialogResponse { results, args } };
    Invocation {
        extension_id,
        context: InvocationContext::run_action(extension_action, None),
        mode: LaunchMode::Background,
    }
}

/// The response that is stored for the extension, where there is one.
pub fn dialog_response(state: &DialogState) -> (response: Option<&DialogResponse>)
    ensures
        response.deep_view() == stored_response(state@),
{
    match state {
        DialogState::Resolved { response } => Some(response),
        _ => None,
    }
}

/// Reading the response back after a dialog was closed yields the results
/// and the arguments that were submitted, whatever stood before.
pub proof fn lemma_submitted_response_reads_back(response: DialogResponseModel)
    ensures
        stored_response(closed(response)) == Some(response),
        pending_request(closed(response)) is None,
{
}

/// A request that was stored is fetched as it was stored, as often as the
/// front-end asks, until the dialog is closed.
pub proof fn lemma_stored_request_is_fetched(request: DialogRequestModel)
    ensures
        pending_request(opened(request)) == Some(request),
        pending_request(fetched(opened(request))) == Some(request),
        fetched(fetched(opened(request))) == fetched(opened(request)),
{
}

/// Where nothing was stored, nothing is pending: in the idle state and
/// after a dialog was closed, fetching fails and leaves the state as it is.
pub proof fn lemma_nothing_pending_without_request(state: DialogStateModel)
    requires
        state is Idle || state is Resolved,
    ensures
        pending_request(state) is None,
        fetched(state) == state,
{
}

} // verus!
