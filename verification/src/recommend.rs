//! Shared vocabulary of the recommendation and notification
//! services: preference shapes and delivery taxonomies.

use vstd::prelude::*;

verus! {

/// Kind of a recommendation shown to a user.
#[derive(Clone, Copy, Debug, PartialEq, Eq, Structural)]
pub enum RecommendationType {
    ConnectionSuggestion,
    ContentRecommendation,
    GroupSuggestion,
    EventRecommendation,
    SecurityAdvice,
    FeatureUsage,
    PersonalizedContent,
}

/// Handling state of a recommendation.
#[derive(Clone, Copy, Debug, PartialEq, Eq, Structural)]
pub enum RecommendationStatus {
    Active,
    Viewed,
    Accepted,
    Dismissed,
    Expired,
}

/// Tone a user prefers in generated text.
#[derive(Clone, Copy, Debug, PartialEq, Eq, Structural)]
pub enum CommunicationStyle {
    Formal,
    Casual,
    Technical,
    Social,
    Professional,
}

/// Visibility a user grants to derived profile data.
#[derive(Clone, Copy, Debug, PartialEq, Eq, Structural)]
pub enum PrivacyLevel {
    Public,
    Friends,
    Private,
    Custom,
}

/// How often a user wants to be notified.
#[derive(Clone, Copy, Debug, PartialEq, Eq, Structural)]
pub enum NotificationFrequency {
    Immediate,
    Hourly,
    Daily,
    Weekly,
    Never,
}

/// A user's notification settings.
#[derive(Clone, Debug)]
pub struct NotificationPreferences {
    pub push_enabled: bool,
    pub email_enabled: bool,
    pub frequency: NotificationFrequency,
    pub categories: Vec<String>,
}

/// Difficulty band of recommended content.
#[derive(Clone, Copy, Debug, PartialEq, Eq, Structural)]
pub enum ComplexityLevel {
    Beginner,
    Intermediate,
    Advanced,
    Expert,
}

/// A user's content taste profile.
#[derive(Clone, Debug)]
pub struct ContentPreferences {
    pub preferred_topics: Vec<String>,
    pub content_types: Vec<String>,
    pub language_preferences: Vec<String>,
    pub complexity_level: ComplexityLevel,
}

/// Kind of a delivered notification.
#[derive(Clone, Copy, Debug, PartialEq, Eq, Structural)]
pub enum NotificationType {
    Security,
    Social,
    System,
    Promotional,
    Reminder,
    Alert,
}

/// Urgency of a delivered notification.
#[derive(Clone, Copy, Debug, PartialEq, Eq, Structural)]
pub enum NotificationPriority {
    Low,
    Medium,
    High,
    Urgent,
    Critical,
}

/// Channel a notification is delivered on.
#[derive(Clone, Copy, Debug, PartialEq, Eq, Structural)]
pub enum DeliveryChannel {
    InApp,
    Push,
    Email,
    Sms,
    WebPush,
}

/// Delivery state of a notification.
#[derive(Clone, Copy, Debug, PartialEq, Eq, Structural)]
pub enum NotificationStatus {
    Pending,
    Sent,
    Delivered,
    Read,
    Failed,
    Cancelled,
}

} // verus!
