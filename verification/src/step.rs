//! What a decision asks for: notices on the parent object, then one action.

use vstd::prelude::*;

verus! {

/// A warning event: a short reason and a sentence.
#[derive(Debug, PartialEq, Eq)]
pub struct Warning {
    pub reason: &'static str,
    pub message: String,
}

/// An event on the object that is reconciled.
#[derive(Debug, PartialEq, Eq)]
pub enum Notice {
    /// The object is in its desired state.
    Ready,
    /// What was provisioned for the object is gone.
    Deleted,
    Warning(Warning),
}

/// What a notice says.
pub enum NoticeView {
    Ready,
    Deleted,
    Warning { reason: Seq<char>, message: Seq<char> },
}

impl View for Warning {
    type V = NoticeView;

    open spec fn view(&self) -> NoticeView {
        NoticeView::Warning { reason: self.reason@, message: self.message@ }
    }
}

impl View for Notice {
    type V = NoticeView;

    open spec fn view(&self) -> NoticeView {
        match self {
            Notice::Ready => NoticeView::Ready,
            Notice::Deleted => NoticeView::Deleted,
            Notice::Warning(warning) => warning@,
        }
    }
}

/// A warning, as a notice says it.
pub open spec fn warning(reason: Seq<char>, message: Seq<char>) -> NoticeView {
    NoticeView::Warning { reason, message }
}

/// Notices to publish, in order, and then an action to take.
#[derive(Debug)]
pub struct Step<A> {
    pub notices: Vec<Notice>,
    pub action: A,
}

/// What a step asks for.
#[verifier::ext_equal]
pub struct StepView<V> {
    pub notices: Seq<NoticeView>,
    pub action: V,
}

impl<A: View> View for Step<A> {
    type V = StepView<A::V>;

    open spec fn view(&self) -> StepView<A::V> {
        StepView { notices: self.notices@.map_values(|notice: Notice| notice@), action: self.action@ }
    }
}

/// An action without notices.
pub open spec fn quietly<V>(action: V) -> StepView<V> {
    StepView { notices: Seq::empty(), action }
}

/// An action behind one notice.
pub open spec fn noting<V>(notice: NoticeView, action: V) -> StepView<V> {
    StepView { notices: seq![notice], action }
}

/// An action behind a notice, where there is one.
pub open spec fn maybe_noting<V>(notice: Option<NoticeView>, action: V) -> StepView<V> {
    match notice {
        Some(notice) => noting(notice, action),
        None => quietly(action),
    }
}

/// What an optional notice says.
pub open spec fn notice_of(notice: Option<Notice>) -> Option<NoticeView> {
    match notice {
        Some(notice) => Some(notice@),
        None => None,
    }
}

impl<A: View> Step<A> {
    /// An action behind a notice, where there is one.
    pub fn maybe_noted(notice: Option<Notice>, action: A) -> (step: Self)
        ensures
            step@ == maybe_noting(notice_of(notice), action@),
            step.action == action,
    {
        match notice {
            Some(notice) => Self::noted(notice, action),
            None => Self::quiet(action),
        }
    }

    /// An action without notices.
    pub fn quiet(action: A) -> (step: Self)
        ensures
            step@ == quietly(action@),
            step.action == action,
    {
        let step = Step { notices: Vec::new(), action };
        proof {
            assert(step@.notices =~= Seq::empty());
        }
        step
    }

    /// An action behind one notice.
    pub fn noted(notice: Notice, action: A) -> (step: Self)
        ensures
            step@ == noting(notice@, action@),
            step.action == action,
    {
        let mut notices: Vec<Notice> = Vec::new();
        notices.push(notice);
        let step = Step { notices, action };
        proof {
            assert(step@.notices =~= seq![notice@]);
        }
        step
    }

    /// An action behind a warning.
    pub fn warned(reason: &'static str, message: String, action: A) -> (step: Self)
        ensures
            step@ == noting(warning(reason@, message@), action@),
            step.action == action,
    {
        Self::noted(Notice::Warning(Warning { reason, message }), action)
    }
}

} // verus!
