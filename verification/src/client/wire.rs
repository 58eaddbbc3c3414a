//! The plain values that a connection to osquery carries, and what they mean.

use crate::client::{ExtensionInfo, OptionInfo};
use crate::error;
use crate::error::Error;
use crate::number;
use crate::row;
use crate::row::{ExtensionUuid, PluginResponse};
use crate::text;
use crate::text_map::TextMap;
use vstd::prelude::*;
use vstd::string::*;

verus! {

broadcast use vstd::string::group_string_axioms;

/// A status on the wire. Every field may be missing.
#[derive(Debug, PartialEq, Eq)]
pub struct ExtensionStatus {
    pub code: Option<i32>,
    pub message: Option<String>,
    pub uuid: Option<ExtensionUuid>,
}

/// An answer on the wire. Every field may be missing.
#[derive(Debug, PartialEq, Eq)]
pub struct ExtensionResponse {
    pub status: Option<ExtensionStatus>,
    pub response: Option<PluginResponse>,
}

/// What osquery says of an extension, on the wire.
#[derive(Debug, PartialEq, Eq)]
pub struct InternalExtensionInfo {
    pub name: Option<String>,
    pub version: Option<String>,
    pub sdk_version: Option<String>,
    pub min_sdk_version: Option<String>,
}

/// What osquery says of an option, on the wire.
#[derive(Debug, PartialEq, Eq)]
pub struct InternalOptionInfo {
    pub value: Option<String>,
    pub default_value: Option<String>,
    pub option_type: Option<String>,
}

/// An [`ExtensionStatus`] in terms of its characters.
pub struct StatusView {
    pub code: Option<i32>,
    pub message: Option<Seq<char>>,
    pub uuid: Option<ExtensionUuid>,
}

/// An [`ExtensionResponse`] in terms of its characters.
pub struct ResponseView {
    pub status: Option<StatusView>,
    pub response: Option<Seq<row::RowView>>,
}

impl DeepView for ExtensionStatus {
    type V = StatusView;

    open spec fn deep_view(&self) -> StatusView {
        StatusView { code: self.code, message: self.message.deep_view(), uuid: self.uuid }
    }
}

impl DeepView for ExtensionResponse {
    type V = ResponseView;

    open spec fn deep_view(&self) -> ResponseView {
        ResponseView { status: self.status.deep_view(), response: self.response.deep_view() }
    }
}

/// `text`, or nothing where it is missing.
pub open spec fn or_empty(text: Option<Seq<char>>) -> Seq<char> {
    match text {
        Some(s) => s,
        None => Seq::empty(),
    }
}

fn text_or_empty(text: Option<String>) -> (r: String)
    ensures
        r@ == or_empty(text.deep_view()),
{
    match text {
        Some(s) => s,
        None => String::new(),
    }
}

/// What a status means: the uuid that it carries, where its code is 0. A
/// missing status or code is not taken for success.
pub open spec fn status_meaning(status: Option<StatusView>) -> Result<
    Option<ExtensionUuid>,
    error::ErrorView,
> {
    match status {
        None => Err(error::ErrorView::Other("response missing status"@)),
        Some(s) => match s.code {
            None => Err(error::ErrorView::Status { code: -1i32, message: or_empty(s.message) }),
            Some(code) => if code == 0 {
                Ok(s.uuid)
            } else {
                Err(error::ErrorView::Status { code, message: or_empty(s.message) })
            },
        },
    }
}

/// What a call gave back whose value is plain, its error in terms of its
/// characters.
pub open spec fn plain_outcome<T>(r: Result<T, Error>) -> Result<T, error::ErrorView> {
    match r {
        Ok(v) => Ok(v),
        Err(e) => Err(e.deep_view()),
    }
}

/// Folds a status into the uuid that it carries, or an error.
pub fn status_ok(status: Option<ExtensionStatus>) -> (r: Result<Option<ExtensionUuid>, Error>)
    ensures
        plain_outcome(r) == status_meaning(status.deep_view()),
{
    let status = match status {
        None => return Err(Error::Other("response missing status".to_string())),
        Some(status) => status,
    };
    let code: i32 = match status.code {
        Some(code) => code,
        None => -1,
    };
    if code == 0 {
        Ok(status.uuid)
    } else {
        Err(Error::Status { code, message: text_or_empty(status.message) })
    }
}

/// What the status of a reply without a value means.
pub open spec fn acknowledgement(status: StatusView) -> Result<(), error::ErrorView> {
    match status_meaning(Some(status)) {
        Ok(_) => Ok(()),
        Err(e) => Err(e),
    }
}

/// Folds the reply to a ping or to a deregistration.
pub fn acknowledged(status: ExtensionStatus) -> (r: Result<(), Error>)
    ensures
        plain_outcome(r) == acknowledgement(status.deep_view()),
{
    match status_ok(Some(status)) {
        Ok(_) => Ok(()),
        Err(e) => Err(e),
    }
}

/// The uuid that the reply to a registration gives.
pub open spec fn uuid_given(status: StatusView) -> Result<ExtensionUuid, error::ErrorView> {
    match status_meaning(Some(status)) {
        Ok(Some(uuid)) => Ok(uuid),
        Ok(None) => Err(error::ErrorView::Other("registration returned no uuid"@)),
        Err(e) => Err(e),
    }
}

/// Folds the reply to a registration.
pub fn registered_uuid(status: ExtensionStatus) -> (r: Result<ExtensionUuid, Error>)
    ensures
        plain_outcome(r) == uuid_given(status.deep_view()),
{
    match status_ok(Some(status)) {
        Ok(Some(uuid)) => Ok(uuid),
        Ok(None) => Err(Error::Other("registration returned no uuid".to_string())),
        Err(e) => Err(e),
    }
}

/// What an answer means: its rows, where its status is success.
pub open spec fn response_meaning(response: ResponseView) -> Result<
    Seq<row::RowView>,
    error::ErrorView,
> {
    match status_meaning(response.status) {
        Err(e) => Err(e),
        Ok(_) => match response.response {
            Some(rows) => Ok(rows),
            None => Ok(Seq::empty()),
        },
    }
}

/// Folds an answer into its rows, or an error.
pub fn response_rows(response: ExtensionResponse) -> (r: Result<PluginResponse, Error>)
    ensures
        error::outcome(r) == response_meaning(response.deep_view()),
{
    match status_ok(response.status) {
        Err(e) => Err(e),
        Ok(_) => match response.response {
            Some(rows) => Ok(rows),
            None => {
                let none: PluginResponse = Vec::new();
                assert(none.deep_view() =~= Seq::<row::RowView>::empty());
                Ok(none)
            },
        },
    }
}

/// The one row of a result, or the error that there is not exactly one.
pub open spec fn only_row(rows: Seq<row::RowView>) -> Result<row::RowView, error::ErrorView> {
    if rows.len() == 1 {
        Ok(rows[0])
    } else {
        Err(error::ErrorView::Other("expected 1 row, got "@ + number::int_text(rows.len() as int)))
    }
}

/// Takes the one row of a result.
pub fn single_row(rows: PluginResponse) -> (r: Result<TextMap<String>, Error>)
    ensures
        error::outcome(r) == only_row(rows.deep_view()),
{
    let mut rows = rows;
    if rows.len() != 1 {
        let n = number::u64_text(rows.len() as u64);
        return Err(Error::Other(text::concat("expected 1 row, got ", n.as_str())));
    }
    Ok(rows.remove(0))
}

/// What osquery says of one extension.
pub open spec fn is_info_of(
    info: ExtensionInfo,
    uuid: ExtensionUuid,
    said: InternalExtensionInfo,
) -> bool {
    &&& info.uuid == uuid
    &&& info.name@ == or_empty(said.name.deep_view())
    &&& info.version@ == or_empty(said.version.deep_view())
    &&& info.sdk_version@ == or_empty(said.sdk_version.deep_view())
    &&& info.min_sdk_version@ == or_empty(said.min_sdk_version.deep_view())
}

/// Turns the list of extensions on the wire into [`ExtensionInfo`]s, in order.
pub fn extension_infos(listed: Vec<(ExtensionUuid, InternalExtensionInfo)>) -> (r: Vec<
    ExtensionInfo,
>)
    ensures
        r@.len() == listed@.len(),
        forall|i: int|
            0 <= i < r@.len() ==> is_info_of(#[trigger] r@[i], listed@[i].0, listed@[i].1),
{
    let ghost all = listed@;
    let mut r: Vec<ExtensionInfo> = Vec::new();
    for entry in it: listed
        invariant
            it.seq() == all,
            r@.len() == it.index(),
            forall|i: int|
                0 <= i < r@.len() ==> is_info_of(#[trigger] r@[i], all[i].0, all[i].1),
    {
        let (uuid, said) = entry;
        r.push(
            ExtensionInfo {
                uuid,
                name: text_or_empty(said.name),
                version: text_or_empty(said.version),
                sdk_version: text_or_empty(said.sdk_version),
                min_sdk_version: text_or_empty(said.min_sdk_version),
            },
        );
    }
    r
}

/// What osquery says of one option, in terms of its characters.
pub open spec fn option_view(said: InternalOptionInfo) -> OptionView {
    OptionView {
        value: or_empty(said.value.deep_view()),
        default_value: or_empty(said.default_value.deep_view()),
        option_type: or_empty(said.option_type.deep_view()),
    }
}

/// An [`OptionInfo`] in terms of its characters.
pub struct OptionView {
    pub value: Seq<char>,
    pub default_value: Seq<char>,
    pub option_type: Seq<char>,
}

impl DeepView for OptionInfo {
    type V = OptionView;

    open spec fn deep_view(&self) -> OptionView {
        OptionView {
            value: self.value@,
            default_value: self.default_value@,
            option_type: self.option_type@,
        }
    }
}

/// The options by name, a later one replacing an earlier one of the same name.
pub open spec fn options_by_name(listed: Seq<(String, InternalOptionInfo)>) -> Map<
    Seq<char>,
    OptionView,
>
    decreases listed.len(),
{
    if listed.len() == 0 {
        Map::empty()
    } else {
        options_by_name(listed.drop_last()).insert(listed.last().0@, option_view(listed.last().1))
    }
}

/// Turns the options on the wire into [`OptionInfo`]s by name.
pub fn option_infos(listed: Vec<(String, InternalOptionInfo)>) -> (r: TextMap<OptionInfo>)
    ensures
        r.deep_view() == options_by_name(listed@),
{
    let ghost all = listed@;
    let mut r: TextMap<OptionInfo> = TextMap::new();
    for entry in it: listed
        invariant
            it.seq() == all,
            r.deep_view() == options_by_name(all.take(it.index())),
    {
        let ghost n = it.index();
        let (name, said) = entry;
        let info = OptionInfo {
            value: text_or_empty(said.value),
            default_value: text_or_empty(said.default_value),
            option_type: text_or_empty(said.option_type),
        };
        proof {
            assert(all.take(n + 1).drop_last() =~= all.take(n));
            row::lemma_deep_insert(r@, name@, info);
        }
        r.insert(name, info);
    }
    assert(all.take(all.len() as int) =~= all);
    r
}

/// The answer to a call, given what the plugin made of it: its rows under
/// status 0, its own status, or status 1 with its error's words.
pub open spec fn reply_for(made: Result<Seq<row::RowView>, error::ErrorView>) -> ResponseView {
    match made {
        Ok(rows) => ResponseView {
            status: Some(StatusView { code: Some(0i32), message: Some("OK"@), uuid: None }),
            response: Some(rows),
        },
        Err(e) => match e {
            error::ErrorView::Status { code, message } => ResponseView {
                status: Some(StatusView { code: Some(code), message: Some(message), uuid: None }),
                response: None,
            },
            _ => refusal(e.text()),
        },
    }
}

/// The answer of status 1 with these words and no rows.
pub open spec fn refusal(words: Seq<char>) -> ResponseView {
    ResponseView {
        status: Some(StatusView { code: Some(1i32), message: Some(words), uuid: None }),
        response: None,
    }
}

/// The answer of status 1 with these words and no rows.
pub fn refuse(words: String) -> (r: ExtensionResponse)
    ensures
        r.deep_view() == refusal(words@),
{
    ExtensionResponse {
        status: Some(ExtensionStatus { code: Some(1), message: Some(words), uuid: None }),
        response: None,
    }
}

/// Turns what a plugin made of a call into the answer on the wire.
pub fn respond(made: Result<PluginResponse, Error>) -> (r: ExtensionResponse)
    ensures
        r.deep_view() == reply_for(error::outcome(made)),
{
    match made {
        Ok(rows) => ExtensionResponse {
            status: Some(
                ExtensionStatus { code: Some(0), message: Some("OK".to_string()), uuid: None },
            ),
            response: Some(rows),
        },
        Err(e) => match e {
            Error::Status { code, message } => ExtensionResponse {
                status: Some(
                    ExtensionStatus { code: Some(code), message: Some(message), uuid: None },
                ),
                response: None,
            },
            e => refuse(e.to_string()),
        },
    }
}

/// A client reads from a server's answer what the plugin made: the rows; the
/// status, code and words alike; and any other error as status 1 with its
/// words. The one thing that cannot be told apart is an error of status 0,
/// which is success to a client.
pub proof fn answers_read_back(made: Result<Seq<row::RowView>, error::ErrorView>)
    requires
        !(made matches Err(error::ErrorView::Status { code: 0, .. })),
    ensures
        match made {
            Ok(rows) => response_meaning(reply_for(made)) == Ok::<_, error::ErrorView>(rows),
            Err(error::ErrorView::Status { code, message }) => response_meaning(reply_for(made))
                == Err::<Seq<row::RowView>, _>(error::ErrorView::Status { code, message }),
            Err(e) => response_meaning(reply_for(made)) == Err::<Seq<row::RowView>, _>(
                error::ErrorView::Status { code: 1i32, message: e.text() },
            ),
        },
{
}

/// Only a status that is there, with a code that is there and 0, is success.
pub proof fn success_is_never_assumed(status: Option<StatusView>)
    ensures
        status_meaning(status) is Ok <==> (status matches Some(s) && s.code == Some(0i32)),
{
}

/// The view of a status or an answer shows each of its fields.
pub proof fn wire_values_show_their_fields(status: ExtensionStatus, answer: ExtensionResponse)
    ensures
        status.deep_view().code == status.code,
        status.deep_view().uuid == status.uuid,
        status.message is Some <==> status.deep_view().message is Some,
        status.message matches Some(m) ==> status.deep_view().message == Some(m@),
        answer.status is Some <==> answer.deep_view().status is Some,
        answer.status matches Some(s) ==> answer.deep_view().status == Some(s.deep_view()),
        answer.response is Some <==> answer.deep_view().response is Some,
        answer.response matches Some(rows) ==> answer.deep_view().response == Some(
            rows.deep_view(),
        ),
{
}

/// A value that a call gave back is seen as it is, and an error by its view.
pub proof fn plain_outcomes_show_both_sides<T>(r: Result<T, Error>)
    ensures
        r matches Ok(v) ==> plain_outcome(r) == Ok::<T, error::ErrorView>(v),
        r matches Err(e) ==> plain_outcome(r) == Err::<T, error::ErrorView>(e.deep_view()),
{
}

/// An answer whose status has code 0 means exactly the rows that it carries,
/// whatever else its status says; where it carries none, it means no rows.
pub proof fn successful_answers_mean_their_rows(
    message: Option<Seq<char>>,
    uuid: Option<ExtensionUuid>,
    rows: Seq<row::RowView>,
)
    ensures
        ({
            let status = Some(StatusView { code: Some(0i32), message, uuid });
            &&& response_meaning(ResponseView { status, response: Some(rows) }) == Ok::<
                _,
                error::ErrorView,
            >(rows)
            &&& response_meaning(ResponseView { status, response: None }) == Ok::<
                _,
                error::ErrorView,
            >(Seq::<row::RowView>::empty())
        }),
{
}

/// A status with any other code is an error of that code and those words,
/// whatever else is sent with it. A code that is missing counts as -1, missing
/// words as none, and an answer without status is an error that says so.
pub proof fn other_statuses_are_errors(
    code: i32,
    words: Seq<char>,
    uuid: Option<ExtensionUuid>,
    response: Option<Seq<row::RowView>>,
)
    ensures
        code != 0 ==> {
            let status = StatusView { code: Some(code), message: Some(words), uuid };
            let e = error::ErrorView::Status { code, message: words };
            &&& response_meaning(ResponseView { status: Some(status), response }) == Err::<
                Seq<row::RowView>,
                _,
            >(e)
            &&& acknowledgement(status) == Err::<(), _>(e)
            &&& uuid_given(status) == Err::<ExtensionUuid, _>(e)
        },
        code != 0 ==> acknowledgement(StatusView { code: Some(code), message: None, uuid })
            == Err::<(), _>(error::ErrorView::Status { code, message: Seq::empty() }),
        response_meaning(
            ResponseView {
                status: Some(StatusView { code: None, message: Some(words), uuid }),
                response,
            },
        ) == Err::<Seq<row::RowView>, _>(error::ErrorView::Status { code: -1i32, message: words }),
        acknowledgement(StatusView { code: None, message: None, uuid }) == Err::<(), _>(
            error::ErrorView::Status { code: -1i32, message: Seq::empty() },
        ),
        uuid_given(StatusView { code: None, message: Some(words), uuid }) == Err::<
            ExtensionUuid,
            _,
        >(error::ErrorView::Status { code: -1i32, message: words }),
        response_meaning(ResponseView { status: None, response }) == Err::<Seq<row::RowView>, _>(
            error::ErrorView::Other("response missing status"@),
        ),
{
}

/// A reply of code 0 acknowledges, whatever else it says, and gives the uuid
/// that it carries; where it carries none, there is none to give.
pub proof fn successful_statuses_give_their_uuid(message: Option<Seq<char>>, uuid: ExtensionUuid)
    ensures
        acknowledgement(StatusView { code: Some(0i32), message, uuid: Some(uuid) }) is Ok,
        acknowledgement(StatusView { code: Some(0i32), message, uuid: None }) is Ok,
        uuid_given(StatusView { code: Some(0i32), message, uuid: Some(uuid) }) == Ok::<
            _,
            error::ErrorView,
        >(uuid),
        uuid_given(StatusView { code: Some(0i32), message, uuid: None }) == Err::<
            ExtensionUuid,
            _,
        >(error::ErrorView::Other("registration returned no uuid"@)),
{
}

/// There is one row exactly where there is one, and it is that row; else the
/// error counts the rows.
pub proof fn one_row_is_that_row(rows: Seq<row::RowView>)
    ensures
        only_row(rows) is Ok <==> rows.len() == 1,
        rows.len() == 1 ==> only_row(rows) == Ok::<_, error::ErrorView>(rows[0]),
        rows.len() != 1 ==> only_row(rows) == Err::<row::RowView, _>(
            error::ErrorView::Other(
                "expected 1 row, got "@ + number::int_text(rows.len() as int),
            ),
        ),
{
}

/// What osquery says of an extension comes through field by field, and what it
/// does not say is empty.
pub proof fn extensions_come_through(
    info: ExtensionInfo,
    uuid: ExtensionUuid,
    said: InternalExtensionInfo,
)
    requires
        is_info_of(info, uuid, said),
    ensures
        info.uuid == uuid,
        said.name matches Some(s) ==> info.name@ == s@,
        said.name is None ==> info.name@.len() == 0,
        said.version matches Some(s) ==> info.version@ == s@,
        said.version is None ==> info.version@.len() == 0,
        said.sdk_version matches Some(s) ==> info.sdk_version@ == s@,
        said.sdk_version is None ==> info.sdk_version@.len() == 0,
        said.min_sdk_version matches Some(s) ==> info.min_sdk_version@ == s@,
        said.min_sdk_version is None ==> info.min_sdk_version@.len() == 0,
{
}

/// What osquery says of an option comes through field by field, and what it
/// does not say is empty.
pub proof fn options_come_through(said: InternalOptionInfo, info: OptionInfo)
    requires
        info.deep_view() == option_view(said),
    ensures
        said.value matches Some(s) ==> info.value@ == s@,
        said.value is None ==> info.value@.len() == 0,
        said.default_value matches Some(s) ==> info.default_value@ == s@,
        said.default_value is None ==> info.default_value@.len() == 0,
        said.option_type matches Some(s) ==> info.option_type@ == s@,
        said.option_type is None ==> info.option_type@.len() == 0,
{
}

/// The options by name are those that osquery listed: each name that it
/// listed, with what it said last of it, and no other.
pub proof fn options_are_those_listed(
    listed: Seq<(String, InternalOptionInfo)>,
    i: int,
    name: Seq<char>,
)
    ensures
        options_by_name(listed).contains_key(name) <==> exists|k: int|
            0 <= k < listed.len() && (#[trigger] listed[k]).0@ == name,
        0 <= i < listed.len() && listed[i].0@ == name && (forall|k: int|
            i < k < listed.len() ==> (#[trigger] listed[k]).0@ != name) ==> options_by_name(
            listed,
        )[name] == option_view(listed[i].1),
    decreases listed.len(),
{
    if listed.len() > 0 {
        let rest = listed.drop_last();
        let last = listed.len() - 1;
        options_are_those_listed(rest, i, name);
        if options_by_name(rest).contains_key(name) {
            let k = choose|k: int| 0 <= k < rest.len() && (#[trigger] rest[k]).0@ == name;
            assert(listed[k].0@ == name);
        }
        if exists|k: int| 0 <= k < listed.len() && (#[trigger] listed[k]).0@ == name {
            let k = choose|k: int| 0 <= k < listed.len() && (#[trigger] listed[k]).0@ == name;
            if k < last {
                assert(rest[k].0@ == name);
            }
        }
        if 0 <= i < last && (forall|k: int|
            i < k < listed.len() ==> (#[trigger] listed[k]).0@ != name) {
            assert(rest[i] == listed[i]);
            assert(listed[last].0@ != name);
            assert forall|k: int| i < k < rest.len() implies (#[trigger] rest[k]).0@ != name by {
                assert(rest[k] == listed[k]);
            }
        }
    }
}

/// On the wire, rows are a success that carries them; a status keeps its code
/// and words and carries no rows; and any other error is status 1 with its
/// words.
pub proof fn answers_carry_what_was_made(rows: Seq<row::RowView>, code: i32, words: Seq<char>)
    ensures
        reply_for(Ok(rows)).response == Some(rows),
        reply_for(Ok(rows)).status == Some(
            StatusView { code: Some(0i32), message: Some("OK"@), uuid: None },
        ),
        reply_for(Err(error::ErrorView::Status { code, message: words })) == (ResponseView {
            status: Some(StatusView { code: Some(code), message: Some(words), uuid: None }),
            response: None,
        }),
        reply_for(Err(error::ErrorView::Other(words))) == (ResponseView {
            status: Some(StatusView { code: Some(1i32), message: Some(words), uuid: None }),
            response: None,
        }),
        reply_for(Err(error::ErrorView::Transport(words))) == (ResponseView {
            status: Some(StatusView { code: Some(1i32), message: Some(words), uuid: None }),
            response: None,
        }),
        refusal(words) == (ResponseView {
            status: Some(StatusView { code: Some(1i32), message: Some(words), uuid: None }),
            response: None,
        }),
{
}

} // verus!
