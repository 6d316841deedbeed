pub mod assistant;
pub mod fence;
pub mod parsed;
pub mod prompts;

pub use parsed::{ParsedInterview, ParsedJob};
pub use prompts::get_system_prompt;
pub use assistant::{AIAssistant, AIResponse};
