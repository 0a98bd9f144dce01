//! The metric a handler is timed under, and the handler wrapped with it.

use crate::entry::text_of;
use vstd::prelude::*;

verus! {

/// What identifies a metric: its name and, if it has one, its description.
pub struct MetricDescriptor {
    /// The name the metric is reported under.
    pub name: Seq<char>,
    /// What the metric measures, in words.
    pub description: Option<Seq<char>>,
}

/// Names the metric under which a handler is timed. The name and the
/// description are fixed when the layer is built and are written into the
/// header as they are: the caller sees to it that they fit the header grammar.
#[derive(Debug, Clone)]
pub struct ServerTimingLayer<'a> {
    /// The service name.
    app: &'a str,
    /// An optional description of the service.
    description: Option<&'a str>,
}

impl<'a> View for ServerTimingLayer<'a> {
    type V = MetricDescriptor;

    closed spec fn view(&self) -> MetricDescriptor {
        MetricDescriptor {
            name: self.app@,
            description: match self.description {
                Some(d) => Some(d@),
                None => None,
            },
        }
    }
}

impl<'a> ServerTimingLayer<'a> {
    /// Creates a new `ServerTimingLayer` with the given service name.
    pub fn new(app: &'a str) -> (layer: Self)
        ensures
            layer@ == (MetricDescriptor { name: app@, description: None }),
    {
        ServerTimingLayer { app, description: None }
    }

    /// Adds a description to the service name.
    pub fn with_description(self, description: &'a str) -> (layer: Self)
        ensures
            layer@ == (MetricDescriptor { name: self@.name, description: Some(description@) }),
    {
        ServerTimingLayer { app: self.app, description: Some(description) }
    }

    /// The service name.
    pub fn app(&self) -> (app: &'a str)
        ensures
            app@ == self@.name,
    {
        self.app
    }

    /// The description of the service, if it has one.
    pub fn description(&self) -> (description: Option<&'a str>)
        ensures
            text_of(description) == self@.description,
    {
        self.description
    }

    /// Wraps `service`: the result holds it untouched, together with this
    /// layer's metric.
    pub fn layer<S>(&self, service: S) -> (wrapped: ServerTimingService<'a, S>)
        ensures
            wrapped.inner() == service,
            wrapped.descriptor() == self@,
    {
        ServerTimingService { service, app: self.app, description: self.description }
    }
}

/// A handler together with the metric it is timed under.
#[derive(Debug, Clone)]
pub struct ServerTimingService<'a, S> {
    /// The service to wrap.
    service: S,
    /// The service name.
    app: &'a str,
    /// An optional description of the service.
    description: Option<&'a str>,
}

impl<'a, S> ServerTimingService<'a, S> {
    /// The wrapped handler.
    pub closed spec fn inner(&self) -> S {
        self.service
    }

    /// The metric the handler is timed under.
    pub closed spec fn descriptor(&self) -> MetricDescriptor {
        MetricDescriptor {
            name: self.app@,
            description: match self.description {
                Some(d) => Some(d@),
                None => None,
            },
        }
    }

    /// The metric the handler is timed under, to be kept for as long as a
    /// request is in flight.
    pub fn metric(&self) -> (metric: ServerTimingLayer<'a>)
        ensures
            metric@ == self.descriptor(),
    {
        ServerTimingLayer { app: self.app, description: self.description }
    }

    /// The service name.
    pub fn app(&self) -> (app: &'a str)
        ensures
            app@ == self.descriptor().name,
    {
        self.app
    }

    /// The description of the service, if it has one.
    pub fn description(&self) -> (description: Option<&'a str>)
        ensures
            text_of(description) == self.descriptor().description,
    {
        self.description
    }

    /// The wrapped handler.
    pub fn get_ref(&self) -> (service: &S)
        ensures
            *service == self.inner(),
    {
        &self.service
    }

    /// Gives the wrapped handler back.
    pub fn into_inner(self) -> (service: S)
        ensures
            service == self.inner(),
    {
        self.service
    }

    /// The wrapped handler, to be asked for readiness or called.
    pub fn get_mut(&mut self) -> (service: &mut S)
        ensures
            *service == old(self).inner(),
            final(self).inner() == *final(service),
            final(self).descriptor() == old(self).descriptor(),
    {
        &mut self.service
    }
}

} // verus!
