pub mod plain_text_presenter_adapter;
