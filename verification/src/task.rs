//! The export task: a validated configuration with its resolved headers and
//! its delivery mode, to which a write handler may be attached before it is
//! started.

use crate::delivery::{remote_write_url, write_url};
use crate::error::{ConfigFault, InvalidConfig};
use crate::header::{
    build_headers, is_header_name, lemma_bad_name_is_refused, lemma_resolved_entries,
    resolve_headers,
};
use crate::outside::{
    has_sure_room, header_map_clone, header_map_entries, header_map_new, no_headers,
    SURE_HEADER_ROOM,
};
use crate::mode::{address_view, mode_for, select_mode, DeliveryMode};
use crate::option::{
    default_config, validity, ExportConfig, ExportMetricsOption, Validity, WriteInterval,
};
use http::header::{HeaderMap, HeaderValue};
use vstd::prelude::*;

verus! {

/// Exports the metrics of this process at a fixed interval. `F` is the
/// caller's metric filter and `H` its in-process write handler; the task only
/// carries them.
pub struct ExportMetricsTask<F, H> {
    config: ExportMetricsOption,
    filter: Option<F>,
    headers: HeaderMap<HeaderValue>,
    mode: DeliveryMode,
    handler: Option<H>,
}

/// The mathematical form of an [`ExportMetricsTask`].
pub struct TaskView<F, H> {
    pub config: ExportConfig,
    pub filter: Option<F>,
    pub headers: Map<Seq<char>, Seq<Seq<u8>>>,
    pub mode: DeliveryMode,
    pub handler: Option<H>,
}

impl<F, H> View for ExportMetricsTask<F, H> {
    type V = TaskView<F, H>;

    closed spec fn view(&self) -> TaskView<F, H> {
        TaskView {
            config: self.config@,
            filter: self.filter,
            headers: header_map_entries(self.headers),
            mode: self.mode,
            handler: self.handler,
        }
    }
}

/// What building a task from a configuration comes to.
pub enum Construction {
    /// Export is switched off: no task.
    NoTask,
    /// The configuration is refused.
    Refused(ConfigFault),
    /// A task with this mode and these headers.
    Built { mode: DeliveryMode, headers: Map<Seq<char>, Seq<Seq<u8>>> },
}

/// What building a task from `config` comes to in a process that serves
/// `local`. The interval is checked first, then the database name, then the
/// headers in their order, and the endpoint last.
pub open spec fn construction(config: ExportConfig, local: Option<Seq<char>>) -> Construction {
    match validity(config) {
        Ok(Validity::Disabled) => Construction::NoTask,
        Err(fault) => Construction::Refused(fault),
        Ok(Validity::Valid) => match resolve_headers(config.headers) {
            Err(fault) => Construction::Refused(fault),
            Ok(headers) => match mode_for(config.endpoint, local) {
                None => Construction::Refused(ConfigFault::MissingEndpoint),
                Some(mode) => Construction::Built { mode, headers },
            },
        },
    }
}

/// What `try_new` has returned, in the terms of [`construction`].
pub open spec fn outcome<F, H>(
    built: Result<Option<ExportMetricsTask<F, H>>, InvalidConfig>,
) -> Construction {
    match built {
        Ok(None) => Construction::NoTask,
        Err(fault) => Construction::Refused(fault@),
        Ok(Some(task)) => Construction::Built { mode: task@.mode, headers: task@.headers },
    }
}

/// What the caller of `start` has to set going.
pub enum StartAction<'a, F, H> {
    /// Nothing: the task is switched off.
    Nothing,
    /// A loop that hands each batch to `handler`, for the database `db`.
    Handler { db: String, handler: &'a H, filter: Option<&'a F>, interval: WriteInterval },
    /// A loop that posts each batch to `endpoint` with `headers` added.
    Network {
        headers: HeaderMap<HeaderValue>,
        endpoint: String,
        filter: Option<&'a F>,
        interval: WriteInterval,
    },
}

/// The mathematical form of a [`StartAction`].
pub enum StartPlan<F, H> {
    Nothing,
    Handler { db: Seq<char>, handler: H, filter: Option<F>, interval: WriteInterval },
    Network {
        headers: Map<Seq<char>, Seq<Seq<u8>>>,
        endpoint: Seq<char>,
        filter: Option<F>,
        interval: WriteInterval,
    },
}

/// The mathematical form of a filter that is lent out.
pub open spec fn lent<F>(filter: Option<&F>) -> Option<F> {
    match filter {
        Some(f) => Some(*f),
        None => None,
    }
}

impl<'a, F, H> View for StartAction<'a, F, H> {
    type V = StartPlan<F, H>;

    open spec fn view(&self) -> StartPlan<F, H> {
        match self {
            StartAction::Nothing => StartPlan::Nothing,
            StartAction::Handler { db, handler, filter, interval } => StartPlan::Handler {
                db: db@,
                handler: **handler,
                filter: lent(*filter),
                interval: *interval,
            },
            StartAction::Network { headers, endpoint, filter, interval } => StartPlan::Network {
                headers: header_map_entries(*headers),
                endpoint: endpoint@,
                filter: lent(*filter),
                interval: *interval,
            },
        }
    }
}

/// What starting a task sets going. A task that is switched off starts
/// nothing. A task in handler mode hands its batches to the attached handler.
/// Any other task, one in handler mode without a handler too, posts them to
/// its endpoint.
pub open spec fn start_plan<F, H>(task: TaskView<F, H>) -> StartPlan<F, H> {
    if !task.config.enable {
        StartPlan::Nothing
    } else if task.mode == DeliveryMode::Handler && task.handler is Some {
        StartPlan::Handler {
            db: task.config.db,
            handler: task.handler->Some_0,
            filter: task.filter,
            interval: task.config.write_interval,
        }
    } else {
        StartPlan::Network {
            headers: task.headers,
            endpoint: write_url(task.config.endpoint, task.config.db),
            filter: task.filter,
            interval: task.config.write_interval,
        }
    }
}

impl<F, H> Default for ExportMetricsTask<F, H> {
    /// A task that is switched off and starts nothing.
    fn default() -> (task: ExportMetricsTask<F, H>)
        ensures
            task@.config == default_config(),
            task@.filter is None,
            task@.handler is None,
            task@.headers == no_headers(),
            task@.mode == DeliveryMode::Network,
            task.wf(),
    {
        ExportMetricsTask {
            config: ExportMetricsOption::default(),
            filter: None,
            headers: header_map_new(),
            mode: DeliveryMode::Network,
            handler: None,
        }
    }
}

impl<F, H> ExportMetricsTask<F, H> {
    /// What holds of every task: one that is switched on has a positive
    /// interval, a database name, the headers that its configuration resolves
    /// to, and an endpoint unless it delivers in-process.
    pub open spec fn wf(&self) -> bool {
        self@.config.enable ==> {
            &&& validity(self@.config) == Ok::<Validity, ConfigFault>(Validity::Valid)
            &&& resolve_headers(self@.config.headers) == Ok::<
                Map<Seq<char>, Seq<Seq<u8>>>,
                ConfigFault,
            >(self@.headers)
            &&& self@.mode == DeliveryMode::Network ==> self@.config.endpoint.len() > 0
        }
    }

    /// The headers of a task whose configuration names at most
    /// `SURE_HEADER_ROOM - 2` of them leave sure room for the two protocol
    /// headers, so that no request of such a task fails for its headers.
    pub proof fn lemma_headers_leave_room(&self)
        requires
            self.wf(),
            self@.config.enable,
            self@.config.headers.len() + 2 <= SURE_HEADER_ROOM,
        ensures
            has_sure_room(self@.headers, 2),
    {
        lemma_resolved_entries(self@.config.headers);
    }

    /// Builds the task for `config` in a process that serves its own API at
    /// `http_addr`, if it serves one. There is no task where export is
    /// switched off. The configuration is refused where the interval is zero,
    /// the database name is empty, a header name or value is illegal, or no
    /// endpoint is given to a process that serves none.
    pub fn try_new(config: &ExportMetricsOption, http_addr: Option<&str>, filter: Option<F>) -> (built:
        Result<Option<Self>, InvalidConfig>)
        ensures
            config.headers.len() <= SURE_HEADER_ROOM ==> outcome(built) == construction(
                config@,
                address_view(http_addr),
            ),
            outcome(built) != construction(config@, address_view(http_addr)) ==> (built
                matches Err(InvalidConfig::TooManyHeaders)) && validity(config@) is Ok,
            !config.enable ==> built matches Ok(None),
            config.enable && config.write_interval.total_nanos() == 0 ==> built matches Err(
                InvalidConfig::ZeroWriteInterval,
            ),
            config.enable && config.write_interval.total_nanos() > 0 && config.db@.len() == 0
                ==> built matches Err(InvalidConfig::EmptyDb),
            config.enable && (exists|i: int|
                0 <= i < config.headers.len() && !is_header_name(
                    (#[trigger] config.headers[i]).0@,
                )) ==> built is Err,
            config.enable && mode_for(config.endpoint@, address_view(http_addr)) is None
                ==> built is Err,
            built matches Ok(Some(task)) ==> {
                &&& task@.config == config@
                &&& task@.filter == filter
                &&& task@.handler is None
                &&& mode_for(config.endpoint@, address_view(http_addr)) == Some(task@.mode)
                &&& task.wf()
            },
    {
        proof {
            if exists|i: int|
                0 <= i < config.headers.len() && !is_header_name((#[trigger] config.headers[i]).0@) {
                let i = choose|i: int|
                    0 <= i < config.headers.len() && !is_header_name(
                        (#[trigger] config.headers[i]).0@,
                    );
                assert(config@.headers[i].0 == config.headers[i].0@);
                lemma_bad_name_is_refused(config@.headers, i);
            }
        }
        match config.validate() {
            Err(fault) => Err(fault),
            Ok(Validity::Disabled) => Ok(None),
            Ok(Validity::Valid) => {
                let headers = match build_headers(&config.headers) {
                    Ok(headers) => headers,
                    Err(fault) => {
                        return Err(fault);
                    },
                };
                let mode = match select_mode(config.endpoint.as_str(), http_addr) {
                    Ok(mode) => mode,
                    Err(fault) => {
                        return Err(fault);
                    },
                };
                Ok(
                    Some(
                        ExportMetricsTask {
                            config: config.clone(),
                            filter,
                            headers,
                            mode,
                            handler: None,
                        },
                    ),
                )
            },
        }
    }

    /// Attaches the in-process write handler, in place of an earlier one.
    pub fn set_handler(&mut self, handler: H)
        ensures
            final(self)@ == (TaskView { handler: Some(handler), ..old(self)@ }),
            old(self).wf() ==> final(self).wf(),
    {
        self.handler = Some(handler);
    }

    /// The configuration that the task was built from.
    pub fn config(&self) -> (config: &ExportMetricsOption)
        ensures
            config@ == self@.config,
    {
        &self.config
    }

    /// The headers added to every request.
    pub fn headers(&self) -> (headers: &HeaderMap<HeaderValue>)
        ensures
            header_map_entries(*headers) == self@.headers,
    {
        &self.headers
    }

    /// How the task delivers.
    pub fn mode(&self) -> (mode: DeliveryMode)
        ensures
            mode == self@.mode,
    {
        self.mode
    }

    /// Whether the task delivers to the in-process handler.
    pub fn send_by_handler(&self) -> (by_handler: bool)
        ensures
            by_handler == (self@.mode == DeliveryMode::Handler),
    {
        match self.mode {
            DeliveryMode::Handler => true,
            DeliveryMode::Network => false,
        }
    }

    /// Says which loop the caller has to set going, if any. Each call stands
    /// for one loop: the caller calls once.
    pub fn start(&self) -> (action: StartAction<'_, F, H>)
        ensures
            action@ == start_plan(self@),
            !self@.config.enable ==> action@ is Nothing,
    {
        if !self.config.enable {
            return StartAction::Nothing;
        }
        let filter = self.filter.as_ref();
        if let DeliveryMode::Handler = self.mode {
            if let Some(handler) = self.handler.as_ref() {
                return StartAction::Handler {
                    db: self.config.db.clone(),
                    handler,
                    filter,
                    interval: self.config.write_interval,
                };
            }
        }
        StartAction::Network {
            headers: header_map_clone(&self.headers),
            endpoint: remote_write_url(self.config.endpoint.as_str(), self.config.db.as_str()),
            filter,
            interval: self.config.write_interval,
        }
    }
}

} // verus!
