pub mod Object;
pub mod RectTransform;
