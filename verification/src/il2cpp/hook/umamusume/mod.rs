pub mod CharacterHomeTopUIController;
pub mod TextFrame;
pub mod ui_config;
pub mod PartsGachaButtonController;
pub mod StoryChoiceButton;
pub mod DialogOptionHome;
pub mod settings_layout;
