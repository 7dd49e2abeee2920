use crate::api::{ApiData, ApiDataView, ClientError};
use crate::query::ResourceState;
use vstd::prelude::*;

verus! {

/// What a panel displays.
#[derive(Debug, PartialEq, Eq)]
pub enum PanelView {
    /// The placeholder shown while no value is there.
    Loading,
    /// The two fields of the record.
    Data { id: String, name: String },
    /// The message shown in place of a record that could not be fetched.
    Error,
}

/// A `PanelView` over character sequences.
pub enum PanelViewSpec {
    Loading,
    Data { id: Seq<char>, name: Seq<char> },
    Error,
}

impl View for PanelView {
    type V = PanelViewSpec;

    open spec fn view(&self) -> PanelViewSpec {
        match self {
            PanelView::Loading => PanelViewSpec::Loading,
            PanelView::Data { id, name } => PanelViewSpec::Data { id: id@, name: name@ },
            PanelView::Error => PanelViewSpec::Error,
        }
    }
}

/// The display of a record's two fields.
pub open spec fn data_view(data: ApiDataView) -> PanelViewSpec {
    PanelViewSpec::Data { id: data.id, name: data.name }
}

/// The display of a resource whose fetch cannot fail: the placeholder while
/// pending, else the record.
pub open spec fn rendered_data(shown: ResourceState<ApiData>) -> PanelViewSpec {
    match shown {
        ResourceState::Pending => PanelViewSpec::Loading,
        ResourceState::Ready(data) => data_view(data@),
    }
}

/// The display of a resource whose fetch can fail: the placeholder while
/// pending, the record on success, the error message on failure.
pub open spec fn rendered_result(shown: ResourceState<Result<ApiData, ClientError>>)
    -> PanelViewSpec {
    match shown {
        ResourceState::Pending => PanelViewSpec::Loading,
        ResourceState::Ready(Ok(data)) => data_view(data@),
        ResourceState::Ready(Err(_)) => PanelViewSpec::Error,
    }
}

/// Renders a resource whose fetch cannot fail.
pub fn render_data(shown: ResourceState<&ApiData>) -> (view: PanelView)
    ensures
        view@ == rendered_data(
            match shown {
                ResourceState::Pending => ResourceState::Pending,
                ResourceState::Ready(data) => ResourceState::Ready(*data),
            },
        ),
{
    match shown {
        ResourceState::Pending => PanelView::Loading,
        ResourceState::Ready(data) => PanelView::Data {
            id: data.id.clone(),
            name: data.name.clone(),
        },
    }
}

/// Renders a resource whose fetch can fail. Every error is displayed alike.
pub fn render_result(shown: ResourceState<&Result<ApiData, ClientError>>) -> (view: PanelView)
    ensures
        view@ == rendered_result(
            match shown {
                ResourceState::Pending => ResourceState::Pending,
                ResourceState::Ready(result) => ResourceState::Ready(*result),
            },
        ),
{
    match shown {
        ResourceState::Pending => PanelView::Loading,
        ResourceState::Ready(Ok(data)) => PanelView::Data {
            id: data.id.clone(),
            name: data.name.clone(),
        },
        ResourceState::Ready(Err(_)) => PanelView::Error,
    }
}

} // verus!
