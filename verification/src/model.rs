use vstd::prelude::*;

use crate::indicator::IndicatorType;

verus! {

/// One indicator of compromise: a single observable artifact associated
/// with a threat.
#[derive(Debug, Clone, PartialEq)]
pub struct Indicator {
    /// A unique identifier for this indicator.
    pub id: String,
    /// A timestamp text of when this indicator was created.
    pub created: String,
    /// The indicator value itself.
    pub indicator: String,
    /// The kind of artifact the value is.
    pub indicator_type: IndicatorType,
    /// A description of the indicator; empty when the record carries
    /// none.
    pub description: String,
}

/// The mathematical value of an `Indicator`.
pub struct IndicatorV {
    pub id: Seq<char>,
    pub created: Seq<char>,
    pub indicator: Seq<char>,
    pub indicator_type: IndicatorType,
    pub description: Seq<char>,
}

impl View for Indicator {
    type V = IndicatorV;

    open spec fn view(&self) -> IndicatorV {
        IndicatorV {
            id: self.id@,
            created: self.created@,
            indicator: self.indicator@,
            indicator_type: self.indicator_type,
            description: self.description@,
        }
    }
}

/// A threat (a "pulse", as the exchange calls it): a collection of
/// indicators that summarize a potential attack, with metadata on who
/// submitted it and where to read further.
#[derive(Debug, Clone, PartialEq)]
pub struct Threat {
    /// A unique identifier for the threat.
    pub id: String,
    /// Details of who submitted the threat.
    pub author_name: String,
    /// A name describing the threat.
    pub name: String,
    /// A detailed description of the threat; empty when the record
    /// carries none.
    pub description: String,
    /// Date in ISO format when the threat was submitted.
    pub created: String,
    /// Date in ISO format when the threat was last updated.
    pub modified: String,
    /// The indicators that can be used to detect this threat.
    pub indicators: Vec<Indicator>,
    /// The version of this record: the textual form of the number the
    /// record carries.
    pub revision: String,
    /// URLs where further information can be found; empty when the
    /// record carries none.
    pub references: Vec<String>,
    /// Tags related to this threat; empty when the record carries none.
    pub tags: Vec<String>,
}

/// The mathematical value of a `Threat`.
pub struct ThreatV {
    pub id: Seq<char>,
    pub author_name: Seq<char>,
    pub name: Seq<char>,
    pub description: Seq<char>,
    pub created: Seq<char>,
    pub modified: Seq<char>,
    pub indicators: Seq<IndicatorV>,
    pub revision: Seq<char>,
    pub references: Seq<Seq<char>>,
    pub tags: Seq<Seq<char>>,
}

impl View for Threat {
    type V = ThreatV;

    open spec fn view(&self) -> ThreatV {
        ThreatV {
            id: self.id@,
            author_name: self.author_name@,
            name: self.name@,
            description: self.description@,
            created: self.created@,
            modified: self.modified@,
            indicators: self.indicators.deep_view(),
            revision: self.revision@,
            references: self.references.deep_view(),
            tags: self.tags.deep_view(),
        }
    }
}

impl DeepView for Indicator {
    type V = IndicatorV;

    open spec fn deep_view(&self) -> IndicatorV {
        self.view()
    }
}

/// One page of threats returned by the exchange, paginated to the
/// configured limit of results.
#[derive(Debug, Clone, PartialEq)]
pub struct Threats {
    /// How many results the whole request matched.
    pub count: u64,
    /// The cursor of the following page, when there is one: an opaque
    /// absolute URL supplied by the server.
    pub next: Option<String>,
    /// The cursor of the preceding page, when there is one.
    pub previous: Option<String>,
    /// The threats of this page, in order.
    pub results: Vec<Threat>,
}

/// The mathematical value of a `Threats` page.
pub struct ThreatsV {
    pub count: u64,
    pub next: Option<Seq<char>>,
    pub previous: Option<Seq<char>>,
    pub results: Seq<ThreatV>,
}

impl View for Threats {
    type V = ThreatsV;

    open spec fn view(&self) -> ThreatsV {
        ThreatsV {
            count: self.count,
            next: match self.next {
                Some(u) => Some(u@),
                None => None,
            },
            previous: match self.previous {
                Some(u) => Some(u@),
                None => None,
            },
            results: self.results.deep_view(),
        }
    }
}

impl DeepView for Threat {
    type V = ThreatV;

    open spec fn deep_view(&self) -> ThreatV {
        self.view()
    }
}

} // verus!
