//! The languages that come with the library.
pub mod any;
pub mod english;
pub mod basque;
pub mod belarusian;
pub mod chinese;
pub mod danish;
pub mod french;
pub mod german;
pub mod italian;
pub mod japanese;
pub mod korean;
pub mod polish;
pub mod portuguese;
pub mod romanian;
pub mod russian;
pub mod spanish;
pub mod swedish;
pub mod thai;
pub mod turkish;
pub mod ukrainian;
