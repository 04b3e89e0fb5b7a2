//! Validated value types: wrappers that can only be obtained by parsing.

pub mod new_password;
pub mod new_subscriber;
pub mod subscriber_email;
pub mod subscriber_name;
pub mod subscriber_token;
pub mod validation_error;

pub use new_password::{NewPassword, SecretText};
pub use new_subscriber::NewSubscriber;
pub use subscriber_email::SubscriberEmail;
pub use subscriber_name::SubscriberName;
pub use subscriber_token::SubscriberToken;
pub use validation_error::{Rule, ValidationError, ValidationErrorView, ValueKind};
